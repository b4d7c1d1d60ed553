//! The query-composition primitives the paginator builds on: bound parameter
//! values, an AST pass that accumulates SQL text and bound parameters, and the
//! two capabilities a value can offer — rendering itself as a complete SQL
//! fragment, or exposing a bare FROM clause.

use vstd::prelude::*;
use vstd::string::StringExecFns;

verus! {

/// A value bound to a placeholder of a SQL statement.  Parameters are always
/// passed out-of-band, never spliced into the statement text.
#[derive(Debug, PartialEq, Eq)]
pub enum Bind {
    BigInt(i64),
    Text(String),
}

/// The mathematical value of a bound parameter.
pub enum BindModel {
    BigInt(int),
    Text(Seq<char>),
}

impl View for Bind {
    type V = BindModel;

    open spec fn view(&self) -> BindModel {
        match self {
            Bind::BigInt(v) => BindModel::BigInt(*v as int),
            Bind::Text(s) => BindModel::Text(s@),
        }
    }
}

impl DeepView for Bind {
    type V = BindModel;

    open spec fn deep_view(&self) -> BindModel {
        self.view()
    }
}

impl Clone for Bind {
    fn clone(&self) -> (res: Self)
        ensures
            res == self,
    {
        match self {
            Bind::BigInt(v) => Bind::BigInt(*v),
            Bind::Text(s) => Bind::Text(s.clone()),
        }
    }
}

/// Accumulates the rendered form of a query: the statement text on one side,
/// the bound parameter values, in order of their placeholders, on the other.
#[derive(Debug)]
pub struct AstPass {
    pub sql: String,
    pub binds: Vec<Bind>,
}

impl AstPass {
    /// The statement text rendered so far.
    pub open spec fn sql_model(&self) -> Seq<char> {
        self.sql@
    }

    /// The bound parameter values collected so far, in placeholder order.
    pub open spec fn binds_model(&self) -> Seq<BindModel> {
        self.binds.deep_view()
    }

    pub fn new() -> (r: AstPass)
        ensures
            r.sql_model() == Seq::<char>::empty(),
            r.binds_model() == Seq::<BindModel>::empty(),
    {
        let r = AstPass { sql: String::new(), binds: Vec::new() };
        proof {
            assert(r.binds_model() =~= Seq::<BindModel>::empty());
        }
        r
    }

    /// Appends literal statement text.
    pub fn push_sql(&mut self, sql: &str)
        ensures
            final(self).sql_model() == old(self).sql_model() + sql@,
            final(self).binds_model() == old(self).binds_model(),
    {
        self.sql.append(sql);
    }

    /// Appends a `?` placeholder to the statement text and records the value
    /// bound to it.  The value itself never reaches the text.
    pub fn push_bind_param(&mut self, bind: Bind)
        ensures
            final(self).sql_model() == old(self).sql_model() + "?"@,
            final(self).binds_model() == old(self).binds_model().push(bind@),
    {
        self.sql.append("?");
        self.binds.push(bind);
        proof {
            assert(self.binds.deep_view() =~= old(self).binds.deep_view().push(bind@));
        }
    }

    /// Records a value bound to a placeholder that is already embedded in
    /// text pushed separately (used when splicing in a pre-rendered fragment
    /// that carries its own placeholders).
    pub fn push_bound_value(&mut self, bind: Bind)
        ensures
            final(self).sql_model() == old(self).sql_model(),
            final(self).binds_model() == old(self).binds_model().push(bind@),
    {
        self.binds.push(bind);
        proof {
            assert(self.binds.deep_view() =~= old(self).binds.deep_view().push(bind@));
        }
    }
}

/// The capability of rendering oneself as a complete, composable SQL
/// fragment: some statement text (placeholders included) plus the values
/// bound to those placeholders, in order.
pub trait QueryFragment: Sized {
    /// The statement text this fragment renders to.
    spec fn sql_model(&self) -> Seq<char>;

    /// The parameter values this fragment binds, in placeholder order.
    spec fn binds_model(&self) -> Seq<BindModel>;

    /// When the fragment can be rendered without arithmetic overflow.
    spec fn fragment_wf(&self) -> bool;

    /// Renders this fragment onto `out`: its text and its bound parameters
    /// are appended, and nothing already rendered is disturbed.
    fn walk_ast(&self, out: &mut AstPass)
        requires
            self.fragment_wf(),
        ensures
            final(out).sql_model() == old(out).sql_model() + self.sql_model(),
            final(out).binds_model() == old(out).binds_model() + self.binds_model(),
    ;
}

/// An already-built query held as its rendered form: statement text with its
/// placeholders embedded, and the values bound to them.
#[derive(Debug, Clone)]
pub struct SqlFragment {
    pub sql: String,
    pub binds: Vec<Bind>,
}

impl SqlFragment {
    pub fn new(sql: String, binds: Vec<Bind>) -> (r: SqlFragment)
        ensures
            r.sql == sql,
            r.binds == binds,
    {
        SqlFragment { sql, binds }
    }
}

impl QueryFragment for SqlFragment {
    open spec fn sql_model(&self) -> Seq<char> {
        self.sql@
    }

    open spec fn binds_model(&self) -> Seq<BindModel> {
        self.binds.deep_view()
    }

    open spec fn fragment_wf(&self) -> bool {
        true
    }

    fn walk_ast(&self, out: &mut AstPass) {
        out.push_sql(self.sql.as_str());
        let ghost mid = *out;
        let n = self.binds.len();
        let mut i: usize = 0;
        while i < n
            invariant
                i <= n,
                n == self.binds@.len(),
                out.sql_model() == mid.sql_model(),
                out.binds_model() == mid.binds_model() + self.binds.deep_view().take(i as int),
            decreases n - i,
        {
            let b = self.binds[i].clone();
            out.push_bound_value(b);
            proof {
                assert(mid.binds_model() + self.binds.deep_view().take(i as int) + seq![
                    self.binds.deep_view()[i as int],
                ] =~= mid.binds_model() + self.binds.deep_view().take(i + 1));
            }
            i = i + 1;
        }
        proof {
            assert(self.binds.deep_view().take(n as int) =~= self.binds.deep_view());
            assert(out.binds_model() =~= old(out).binds_model() + self.binds_model());
        }
    }
}

/// The capability of exposing a bare FROM clause: a table reference or join
/// expression, without an attached SELECT list.
pub trait QuerySource: Sized {
    /// The FROM-clause text this source exposes.
    spec fn from_sql_model(&self) -> Seq<char>;

    /// The parameter values the FROM clause binds, in placeholder order.
    spec fn from_binds_model(&self) -> Seq<BindModel>;

    /// Renders only the FROM clause of this source as a fragment.
    fn from_clause(&self) -> (r: SqlFragment)
        ensures
            r.sql_model() == self.from_sql_model(),
            r.binds_model() == self.from_binds_model(),
    ;
}

/// A plain table reference, usable wherever a FROM clause is expected.
#[derive(Debug, Clone)]
pub struct Table {
    pub name: String,
}

impl Table {
    pub fn new(name: String) -> (r: Table)
        ensures
            r.name == name,
    {
        Table { name }
    }
}

impl QuerySource for Table {
    open spec fn from_sql_model(&self) -> Seq<char> {
        self.name@
    }

    open spec fn from_binds_model(&self) -> Seq<BindModel> {
        Seq::empty()
    }

    fn from_clause(&self) -> (r: SqlFragment) {
        let r = SqlFragment { sql: self.name.clone(), binds: Vec::new() };
        proof {
            assert(r.binds_model() =~= Seq::<BindModel>::empty());
        }
        r
    }
}

} // verus!
