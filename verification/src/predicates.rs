//! Custom infix operators as composable expression leaves.  They take part
//! in the same fragment composition the paginator accepts and need no
//! special-casing by it.

use vstd::prelude::*;
use crate::query_builder::AstPass;
use crate::query_builder::BindModel;
use crate::query_builder::QueryFragment;

verus! {

/// The infix expression `left & right`.
#[derive(Debug, Clone)]
pub struct MyBitAnd<L, R> {
    pub left: L,
    pub right: R,
}

impl<L: QueryFragment, R: QueryFragment> QueryFragment for MyBitAnd<L, R> {
    open spec fn sql_model(&self) -> Seq<char> {
        self.left.sql_model() + " & "@ + self.right.sql_model()
    }

    open spec fn binds_model(&self) -> Seq<BindModel> {
        self.left.binds_model() + self.right.binds_model()
    }

    open spec fn fragment_wf(&self) -> bool {
        self.left.fragment_wf() && self.right.fragment_wf()
    }

    fn walk_ast(&self, out: &mut AstPass) {
        self.left.walk_ast(out);
        out.push_sql(" & ");
        self.right.walk_ast(out);
        proof {
            assert(out.sql_model() =~= old(out).sql_model() + self.sql_model());
            assert(out.binds_model() =~= old(out).binds_model() + self.binds_model());
        }
    }
}

/// The infix expression `left | right`.
#[derive(Debug, Clone)]
pub struct MyBitOr<L, R> {
    pub left: L,
    pub right: R,
}

impl<L: QueryFragment, R: QueryFragment> QueryFragment for MyBitOr<L, R> {
    open spec fn sql_model(&self) -> Seq<char> {
        self.left.sql_model() + " | "@ + self.right.sql_model()
    }

    open spec fn binds_model(&self) -> Seq<BindModel> {
        self.left.binds_model() + self.right.binds_model()
    }

    open spec fn fragment_wf(&self) -> bool {
        self.left.fragment_wf() && self.right.fragment_wf()
    }

    fn walk_ast(&self, out: &mut AstPass) {
        self.left.walk_ast(out);
        out.push_sql(" | ");
        self.right.walk_ast(out);
        proof {
            assert(out.sql_model() =~= old(out).sql_model() + self.sql_model());
            assert(out.binds_model() =~= old(out).binds_model() + self.binds_model());
        }
    }
}

/// Bitwise combinators for big-integer-typed expressions.
pub trait BigIntBitOperatorExtensions: QueryFragment {
    fn bit_and<T: QueryFragment>(self, other: T) -> (r: MyBitAnd<Self, T>)
        ensures
            r.left == self,
            r.right == other,
    ;

    fn bit_or<T: QueryFragment>(self, other: T) -> (r: MyBitOr<Self, T>)
        ensures
            r.left == self,
            r.right == other,
    ;
}

impl<S: QueryFragment> BigIntBitOperatorExtensions for S {
    fn bit_and<T: QueryFragment>(self, other: T) -> (r: MyBitAnd<Self, T>) {
        MyBitAnd { left: self, right: other }
    }

    fn bit_or<T: QueryFragment>(self, other: T) -> (r: MyBitOr<Self, T>) {
        MyBitOr { left: self, right: other }
    }
}

/// Bitwise combinators for integer-typed expressions.
pub trait IntegerBitOperatorExtensions: QueryFragment {
    fn bit_and<T: QueryFragment>(self, other: T) -> (r: MyBitAnd<Self, T>)
        ensures
            r.left == self,
            r.right == other,
    ;

    fn bit_or<T: QueryFragment>(self, other: T) -> (r: MyBitOr<Self, T>)
        ensures
            r.left == self,
            r.right == other,
    ;
}

impl<S: QueryFragment> IntegerBitOperatorExtensions for S {
    fn bit_and<T: QueryFragment>(self, other: T) -> (r: MyBitAnd<Self, T>) {
        MyBitAnd { left: self, right: other }
    }

    fn bit_or<T: QueryFragment>(self, other: T) -> (r: MyBitOr<Self, T>) {
        MyBitOr { left: self, right: other }
    }
}

} // verus!
