//! A verified pagination layer for composable SQL query fragments.
//!
//! The central piece is [`pagination::Paginated`]: it wraps an already-built
//! query (or a bare data source) and renders a single windowed query that
//! returns one page of rows together with the total row count, computed by
//! `COUNT(*) OVER ()` in the same round trip.  Rendering is specified down to
//! the exact SQL text and the exact sequence of bound parameters, and the
//! result post-processing (splitting rows from the count, computing the page
//! count) is proved against a reference model of the windowed evaluation.

pub mod functions;
pub mod models;
pub mod pagination;
pub mod predicates;
pub mod query_builder;
