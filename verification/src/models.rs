//! Row and change-set types for the example schema the library is exercised
//! against.  They carry plain values only; mapping them to and from a
//! database driver belongs to the surrounding application.

use vstd::prelude::*;

verus! {

/// A stored post, as a query returns it.
#[derive(Debug, Clone, PartialEq, Eq)]
pub struct Post {
    pub id: i64,
    pub title: String,
    pub body: String,
    pub published: bool,
}

/// The fields a caller supplies to create a post.
#[derive(Debug, Clone, PartialEq, Eq)]
pub struct NewPost<'a> {
    pub title: &'a str,
    pub body: &'a str,
}

/// A single generated-key row, as `LAST_INSERT_ID()` returns it.
#[derive(Debug, Clone, PartialEq, Eq)]
pub struct Sequence {
    pub id: i64,
}

/// An identified post together with the fields an update may change.
#[derive(Debug, Clone, PartialEq, Eq)]
pub struct PostForUpdate {
    pub id: i64,
    pub title: String,
    pub body: String,
    pub published: bool,
}

/// The fields a caller supplies to create a user; a missing hair color
/// falls back to the column default.
#[derive(Debug, Clone, PartialEq, Eq)]
pub struct UserForm<'a> {
    pub name: &'a str,
    pub hair_color: Option<&'a str>,
}

} // verus!
