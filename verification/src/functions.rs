//! Custom SQL function declarations as composable expression leaves: they
//! join the same fragment composition as any other expression and need no
//! special-casing by the paginator.

use vstd::prelude::*;
use vstd::string::StringExecFns;
use crate::query_builder::AstPass;
use crate::query_builder::BindModel;
use crate::query_builder::QueryFragment;

verus! {

/// A call of a one-argument SQL function, `name(arg)`.
#[derive(Debug, Clone)]
pub struct SqlFunction1<T> {
    pub name: String,
    pub arg: T,
}

impl<T: QueryFragment> QueryFragment for SqlFunction1<T> {
    open spec fn sql_model(&self) -> Seq<char> {
        self.name@ + "("@ + self.arg.sql_model() + ")"@
    }

    open spec fn binds_model(&self) -> Seq<BindModel> {
        self.arg.binds_model()
    }

    open spec fn fragment_wf(&self) -> bool {
        self.arg.fragment_wf()
    }

    fn walk_ast(&self, out: &mut AstPass) {
        out.push_sql(self.name.as_str());
        out.push_sql("(");
        self.arg.walk_ast(out);
        out.push_sql(")");
        proof {
            assert(out.sql_model() =~= old(out).sql_model() + self.sql_model());
        }
    }
}

/// A call of a two-argument SQL function, `name(arg1, arg2)`.
#[derive(Debug, Clone)]
pub struct SqlFunction2<L, R> {
    pub name: String,
    pub arg1: L,
    pub arg2: R,
}

impl<L: QueryFragment, R: QueryFragment> QueryFragment for SqlFunction2<L, R> {
    open spec fn sql_model(&self) -> Seq<char> {
        self.name@ + "("@ + self.arg1.sql_model() + ", "@ + self.arg2.sql_model() + ")"@
    }

    open spec fn binds_model(&self) -> Seq<BindModel> {
        self.arg1.binds_model() + self.arg2.binds_model()
    }

    open spec fn fragment_wf(&self) -> bool {
        self.arg1.fragment_wf() && self.arg2.fragment_wf()
    }

    fn walk_ast(&self, out: &mut AstPass) {
        out.push_sql(self.name.as_str());
        out.push_sql("(");
        self.arg1.walk_ast(out);
        out.push_sql(", ");
        self.arg2.walk_ast(out);
        out.push_sql(")");
        proof {
            assert(out.sql_model() =~= old(out).sql_model() + self.sql_model());
            assert(out.binds_model() =~= old(out).binds_model() + self.binds_model());
        }
    }
}

/// A call of a SQL function of no arguments, `name()`.
#[derive(Debug, Clone)]
pub struct NoArgSqlFunction {
    pub name: String,
}

impl QueryFragment for NoArgSqlFunction {
    open spec fn sql_model(&self) -> Seq<char> {
        self.name@ + "()"@
    }

    open spec fn binds_model(&self) -> Seq<BindModel> {
        Seq::empty()
    }

    open spec fn fragment_wf(&self) -> bool {
        true
    }

    fn walk_ast(&self, out: &mut AstPass) {
        out.push_sql(self.name.as_str());
        out.push_sql("()");
        proof {
            assert(out.sql_model() =~= old(out).sql_model() + self.sql_model());
            assert(out.binds_model() =~= old(out).binds_model() + self.binds_model());
        }
    }
}

/// Lower-cases a text expression.
pub fn lower<T: QueryFragment>(x: T) -> (r: SqlFunction1<T>)
    ensures
        r.name@ == "lower"@,
        r.arg == x,
{
    SqlFunction1 { name: String::from_str("lower"), arg: x }
}

/// The length of a text expression, as a big integer.
pub fn length<T: QueryFragment>(x: T) -> (r: SqlFunction1<T>)
    ensures
        r.name@ == "length"@,
        r.arg == x,
{
    SqlFunction1 { name: String::from_str("length"), arg: x }
}

/// Concatenates two text expressions.
pub fn concat2<L: QueryFragment, R: QueryFragment>(x: L, y: R) -> (r: SqlFunction2<L, R>)
    ensures
        r.name@ == "concat"@,
        r.arg1 == x,
        r.arg2 == y,
{
    SqlFunction2 { name: String::from_str("concat"), arg1: x, arg2: y }
}

/// The aggregate sum of an expression.
pub fn sum<T: QueryFragment>(expr: T) -> (r: SqlFunction1<T>)
    ensures
        r.name@ == "SUM"@,
        r.arg == expr,
{
    SqlFunction1 { name: String::from_str("SUM"), arg: expr }
}

/// The key generated by the last insert of the session.
pub fn last_insert_id() -> (r: NoArgSqlFunction)
    ensures
        r.name@ == "last_insert_id"@,
{
    NoArgSqlFunction { name: String::from_str("last_insert_id") }
}

} // verus!
