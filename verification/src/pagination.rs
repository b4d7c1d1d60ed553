//! The pagination core: wraps an arbitrary composable query (or a bare data
//! source) into a query that returns one page of rows plus the total row
//! count in a single round trip, via `COUNT(*) OVER ()` and bound
//! `LIMIT`/`OFFSET` parameters.

use vstd::prelude::*;
use vstd::arithmetic::div_mod::lemma_fundamental_div_mod;
use vstd::arithmetic::div_mod::lemma_fundamental_div_mod_converse;
use vstd::arithmetic::div_mod::lemma_mod_bound;
use crate::query_builder::AstPass;
use crate::query_builder::Bind;
use crate::query_builder::BindModel;
use crate::query_builder::QueryFragment;
use crate::query_builder::QuerySource;

verus! {

/// The default number of rows per page.
pub const DEFAULT_PER_PAGE: i64 = 10;

/// The offset of the first row of `page` under a fixed `per_page`.
pub open spec fn spec_offset(page: int, per_page: int) -> int {
    (page - 1) * per_page
}

/// The statement text the paginator renders around an inner fragment.  A
/// finished query is parenthesized as a derived table; a bare FROM clause is
/// spliced in directly.  The `LIMIT`/`OFFSET` values appear only as `?`
/// placeholders, never as literals.
pub open spec fn spec_paginated_sql(inner: Seq<char>, is_sub_query: bool) -> Seq<char> {
    "SELECT *, COUNT(*) OVER () FROM "@ + (if is_sub_query {
        "("@ + inner + ")"@
    } else {
        inner
    }) + " t LIMIT "@ + "?"@ + " OFFSET "@ + "?"@
}

/// The number of pages needed for `total` rows at `per_page` rows per page:
/// the ceiling of `total / per_page`.
pub open spec fn spec_total_pages(total: int, per_page: int) -> int {
    (total + per_page - 1) / per_page
}

/// A query (or data source) wrapped for pagination.
///
/// Rendering it produces the inner fragment inside
/// `SELECT *, COUNT(*) OVER () FROM ... t LIMIT ? OFFSET ?`, with the page
/// window passed as two trailing bound parameters.
#[derive(Debug, Clone)]
pub struct Paginated<T> {
    pub query: T,
    pub page: i64,
    pub per_page: i64,
    pub is_sub_query: bool,
}

/// Lifts any renderable query into a [`Paginated`] wrapper, treating it as a
/// derived table.
pub trait PaginateForQueryFragment: Sized {
    /// Wraps `self` for pagination at 1-based page `page`, with the default
    /// page size.
    fn paginate(self, page: i64) -> (r: Paginated<Self>)
        ensures
            r.query == self,
            r.page == page,
            r.per_page == DEFAULT_PER_PAGE,
            r.is_sub_query,
    ;
}

impl<T: QueryFragment> PaginateForQueryFragment for T {
    fn paginate(self, page: i64) -> (r: Paginated<Self>) {
        Paginated { query: self, per_page: DEFAULT_PER_PAGE, page, is_sub_query: true }
    }
}

impl<T> Paginated<T> {
    /// True when the page window can be rendered without overflow.
    pub open spec fn page_wf(&self) -> bool {
        &&& 1 <= self.page
        &&& 1 <= self.per_page
        &&& spec_offset(self.page as int, self.per_page as int) <= i64::MAX
    }

    /// Returns a copy with `per_page` replaced; nothing else changes.
    pub fn per_page(self, per_page: i64) -> (r: Self)
        ensures
            r.per_page == per_page,
            r.query == self.query,
            r.page == self.page,
            r.is_sub_query == self.is_sub_query,
    {
        Paginated { per_page, ..self }
    }

    /// Splits the combined `(row, total_count)` pairs an execution returned
    /// into the plain row list and the total page count.
    ///
    /// The total row count is the count field of the first returned pair, or
    /// zero when no row came back; the page count is the ceiling of that
    /// count divided by `per_page`.
    pub fn load_and_count_pages<U>(self, results: Vec<(U, i64)>) -> (r: (Vec<U>, i64))
        requires
            1 <= self.per_page,
            results@.len() > 0 ==> 0 <= results@[0].1,
        ensures
            r.0@ == spec_rows_of(results@),
            r.1 == spec_total_pages(spec_total_count(results@), self.per_page as int),
    {
        let per_page = self.per_page;
        let total: i64 = if results.len() == 0 {
            0
        } else {
            results[0].1
        };
        let mut rest = results;
        let ghost all = rest@;
        let mut records: Vec<U> = Vec::new();
        while rest.len() > 0
            invariant
                records@.len() + rest@.len() == all.len(),
                records@ == spec_rows_of(all.subrange(0, records@.len() as int)),
                rest@ == all.subrange(records@.len() as int, all.len() as int),
            decreases rest@.len(),
        {
            let ghost k = records@.len() as int;
            let pair = rest.remove(0);
            records.push(pair.0);
            proof {
                assert(rest@ =~= all.subrange(k + 1, all.len() as int));
                assert(records@ =~= spec_rows_of(all.subrange(0, k + 1)));
            }
        }
        proof {
            assert(all.subrange(0, all.len() as int) =~= all);
            assert(records@ =~= spec_rows_of(all));
        }
        let tu: u64 = total as u64;
        let pu: u64 = per_page as u64;
        let q: u64 = tu / pu;
        let rem: u64 = tu % pu;
        proof {
            lemma_ceil_div_form(total as int, per_page as int);
        }
        let total_pages: i64 = if rem != 0 {
            (q + 1) as i64
        } else {
            q as i64
        };
        (records, total_pages)
    }
}

/// The row parts of a sequence of combined `(row, total_count)` pairs.
pub open spec fn spec_rows_of<U>(results: Seq<(U, i64)>) -> Seq<U> {
    results.map_values(|p: (U, i64)| p.0)
}

/// The total row count an execution reports: the count field of the first
/// returned pair, or zero when no row came back.
pub open spec fn spec_total_count<U>(results: Seq<(U, i64)>) -> int {
    if results.len() == 0 {
        0
    } else {
        results[0].1 as int
    }
}

impl<T: QueryFragment> QueryFragment for Paginated<T> {
    open spec fn sql_model(&self) -> Seq<char> {
        spec_paginated_sql(self.query.sql_model(), self.is_sub_query)
    }

    open spec fn binds_model(&self) -> Seq<BindModel> {
        self.query.binds_model() + seq![
            BindModel::BigInt(self.per_page as int),
            BindModel::BigInt(spec_offset(self.page as int, self.per_page as int)),
        ]
    }

    open spec fn fragment_wf(&self) -> bool {
        self.query.fragment_wf() && self.page_wf()
    }

    fn walk_ast(&self, out: &mut AstPass) {
        out.push_sql("SELECT *, COUNT(*) OVER () FROM ");
        if self.is_sub_query {
            out.push_sql("(");
        }
        self.query.walk_ast(out);
        if self.is_sub_query {
            out.push_sql(")");
        }
        out.push_sql(" t LIMIT ");
        out.push_bind_param(Bind::BigInt(self.per_page));
        out.push_sql(" OFFSET ");
        proof {
            assert((self.page - 1) * self.per_page >= 0) by (nonlinear_arith)
                requires
                    1 <= self.page,
                    1 <= self.per_page,
            ;
        }
        let offset: i64 = (self.page - 1) * self.per_page;
        out.push_bind_param(Bind::BigInt(offset));
        proof {
            assert(out.sql_model() =~= old(out).sql_model() + self.sql_model());
            assert(out.binds_model() =~= old(out).binds_model() + self.binds_model());
        }
    }
}

/// Adapts a bare data source to the fragment capability by rendering only
/// its FROM clause: in the non-derived-table path the paginator supplies the
/// SELECT list itself.
#[derive(Debug, Clone)]
pub struct QuerySourceToQueryFragment<T> {
    pub query_source: T,
}

impl<T: QuerySource> QueryFragment for QuerySourceToQueryFragment<T> {
    open spec fn sql_model(&self) -> Seq<char> {
        self.query_source.from_sql_model()
    }

    open spec fn binds_model(&self) -> Seq<BindModel> {
        self.query_source.from_binds_model()
    }

    open spec fn fragment_wf(&self) -> bool {
        true
    }

    fn walk_ast(&self, out: &mut AstPass) {
        let fc = self.query_source.from_clause();
        fc.walk_ast(out);
    }
}

/// The page of rows a correct engine returns for the rendered window query:
/// up to `per_page` rows starting at offset `(page - 1) * per_page`, clipped
/// to the row set.
pub open spec fn spec_window<R>(rows: Seq<R>, page: int, per_page: int) -> Seq<R> {
    let start = if spec_offset(page, per_page) <= rows.len() {
        spec_offset(page, per_page)
    } else {
        rows.len() as int
    };
    let end = if start + per_page <= rows.len() {
        start + per_page
    } else {
        rows.len() as int
    };
    rows.subrange(start, end)
}

/// Reference evaluation of the query a [`Paginated`] wrapper renders: the
/// windowed slice of the full row set, each row paired with the total row
/// count that `COUNT(*) OVER ()` attaches.  This is the model of the
/// external execution engine that the library's contracts are stated
/// against.
pub fn evaluate_windowed<U>(rows: Vec<U>, page: i64, per_page: i64) -> (r: Vec<(U, i64)>)
    requires
        1 <= page,
        1 <= per_page,
        spec_offset(page as int, per_page as int) <= i64::MAX,
        rows@.len() <= i64::MAX,
    ensures
        spec_rows_of(r@) == spec_window(rows@, page as int, per_page as int),
        forall|i: int| 0 <= i < r@.len() ==> r@[i].1 == rows@.len(),
        spec_total_count(r@) == if spec_window(rows@, page as int, per_page as int).len() == 0 {
            0int
        } else {
            rows@.len() as int
        },
{
    let ghost all = rows@;
    let total: i64 = rows.len() as i64;
    proof {
        assert((page - 1) * per_page >= 0) by (nonlinear_arith)
            requires
                1 <= page,
                1 <= per_page,
        ;
    }
    let offset: i64 = (page - 1) * per_page;
    let mut rest = rows;
    let mut skipped: i64 = 0;
    while skipped < offset && rest.len() > 0
        invariant
            0 <= skipped <= offset,
            offset == spec_offset(page as int, per_page as int),
            skipped <= all.len(),
            rest@ == all.subrange(skipped as int, all.len() as int),
        decreases offset - skipped,
    {
        let ghost k = skipped as int;
        let _dropped = rest.remove(0);
        proof {
            assert(rest@ =~= all.subrange(k + 1, all.len() as int));
        }
        skipped = skipped + 1;
    }
    proof {
        assert(skipped == if offset <= all.len() {
            offset as int
        } else {
            all.len() as int
        });
    }
    let ghost start = skipped as int;
    let mut out: Vec<(U, i64)> = Vec::new();
    let mut taken: i64 = 0;
    while taken < per_page && rest.len() > 0
        invariant
            0 <= taken <= per_page,
            0 <= start,
            start + taken <= all.len(),
            start == if spec_offset(page as int, per_page as int) <= all.len() {
                spec_offset(page as int, per_page as int)
            } else {
                all.len() as int
            },
            total == all.len(),
            rest@ == all.subrange(start + taken, all.len() as int),
            out@.len() == taken,
            spec_rows_of(out@) == all.subrange(start, start + taken),
            forall|i: int| 0 <= i < out@.len() ==> out@[i].1 == all.len(),
        decreases per_page - taken,
    {
        let ghost k = start + taken;
        let row = rest.remove(0);
        out.push((row, total));
        proof {
            assert(rest@ =~= all.subrange(k + 1, all.len() as int));
            assert(spec_rows_of(out@) =~= all.subrange(start, k + 1));
        }
        taken = taken + 1;
    }
    proof {
        let end = if start + per_page <= all.len() {
            start + per_page as int
        } else {
            all.len() as int
        };
        assert(start + taken == end);
        assert(spec_rows_of(out@) =~= spec_window(all, page as int, per_page as int));
    }
    out
}

/// Lifts a bare data source into a [`Paginated`] wrapper, skipping the
/// derived-table parentheses.
pub trait PaginateForQuerySource: Sized {
    /// Wraps `self` for pagination at 1-based page `page`, with the default
    /// page size.
    fn paginate(self, page: i64) -> (r: Paginated<QuerySourceToQueryFragment<Self>>)
        ensures
            r.query.query_source == self,
            r.page == page,
            r.per_page == DEFAULT_PER_PAGE,
            !r.is_sub_query,
    ;
}

impl<T: QuerySource> PaginateForQuerySource for T {
    fn paginate(self, page: i64) -> (r: Paginated<QuerySourceToQueryFragment<Self>>) {
        Paginated {
            query: QuerySourceToQueryFragment { query_source: self },
            per_page: DEFAULT_PER_PAGE,
            page,
            is_sub_query: false,
        }
    }
}

proof fn lemma_ceil_div_form(total: int, per_page: int)
    requires
        0 <= total,
        1 <= per_page,
    ensures
        total % per_page == 0 ==> spec_total_pages(total, per_page) == total / per_page,
        total % per_page != 0 ==> spec_total_pages(total, per_page) == total / per_page + 1,
        0 <= total / per_page <= total,
        total % per_page != 0 ==> total / per_page + 1 <= total,
{
    lemma_fundamental_div_mod(total, per_page);
    lemma_mod_bound(total, per_page);
    let q = total / per_page;
    let r = total % per_page;
    assert(0 <= q <= total) by (nonlinear_arith)
        requires
            total == per_page * q + r,
            0 <= r < per_page,
            1 <= per_page,
            0 <= total,
    ;
    if r == 0 {
        assert(total + per_page - 1 == q * per_page + (per_page - 1)) by (nonlinear_arith)
            requires
                total == per_page * q + r,
                r == 0,
        ;
        lemma_fundamental_div_mod_converse(total + per_page - 1, per_page, q, per_page - 1);
    } else {
        assert(total + per_page - 1 == (q + 1) * per_page + (r - 1)) by (nonlinear_arith)
            requires
                total == per_page * q + r,
        ;
        lemma_fundamental_div_mod_converse(total + per_page - 1, per_page, q + 1, r - 1);
        assert(q + 1 <= total) by (nonlinear_arith)
            requires
                total == per_page * q + r,
                1 <= r < per_page,
                1 <= per_page,
                0 <= q,
        ;
    }
}

/// Law: the page count is the exact ceiling of `total / per_page` — its
/// capacity covers all rows, and one page fewer would fall short.
pub proof fn lemma_total_pages_is_ceiling(total: int, per_page: int)
    requires
        0 <= total,
        1 <= per_page,
    ensures
        0 <= spec_total_pages(total, per_page),
        spec_total_pages(total, per_page) * per_page >= total,
        (spec_total_pages(total, per_page) - 1) * per_page < total,
{
    lemma_fundamental_div_mod(total + per_page - 1, per_page);
    lemma_mod_bound(total + per_page - 1, per_page);
    let q = (total + per_page - 1) / per_page;
    let r = (total + per_page - 1) % per_page;
    assert(0 <= q && q * per_page >= total && (q - 1) * per_page < total) by (nonlinear_arith)
        requires
            total + per_page - 1 == per_page * q + r,
            0 <= r < per_page,
            1 <= per_page,
            0 <= total,
    ;
}

/// Law: a page never holds more than `per_page` rows; a page whose offset
/// lies inside the row set is non-empty; and whenever a page does come back
/// non-empty (or the row set is empty), the count observed by the
/// post-processing step is the full un-paginated row count, so the reported
/// page count is exactly `ceil(total / per_page)`.
pub proof fn lemma_load_page_bounds<R>(rows: Seq<R>, page: int, per_page: int)
    requires
        1 <= page,
        1 <= per_page,
    ensures
        spec_window(rows, page, per_page).len() <= per_page,
        spec_offset(page, per_page) < rows.len() ==> spec_window(rows, page, per_page).len() > 0,
        rows.len() == 0 ==> spec_window(rows, page, per_page).len() == 0,
        spec_offset(page, per_page) < rows.len() || rows.len() == 0 ==> spec_total_pages(
            if spec_window(rows, page, per_page).len() == 0 {
                0int
            } else {
                rows.len() as int
            },
            per_page,
        ) == spec_total_pages(rows.len() as int, per_page),
{
    assert(spec_offset(page, per_page) >= 0) by (nonlinear_arith)
        requires
            1 <= page,
            1 <= per_page,
    ;
}

/// The concatenation, in order, of the row windows of pages `1..=upto`.
pub open spec fn spec_pages_concat<R>(rows: Seq<R>, per_page: int, upto: int) -> Seq<R>
    decreases upto,
{
    if upto <= 0 {
        Seq::empty()
    } else {
        spec_pages_concat(rows, per_page, upto - 1) + spec_window(rows, upto, per_page)
    }
}

proof fn lemma_pages_concat_prefix<R>(rows: Seq<R>, per_page: int, k: int)
    requires
        1 <= per_page,
        0 <= k,
    ensures
        spec_pages_concat(rows, per_page, k) == rows.subrange(
            0,
            if k * per_page <= rows.len() {
                k * per_page
            } else {
                rows.len() as int
            },
        ),
    decreases k,
{
    if k == 0 {
        assert(0 * per_page == 0);
        assert(spec_pages_concat(rows, per_page, 0) =~= rows.subrange(0, 0));
    } else {
        lemma_pages_concat_prefix(rows, per_page, k - 1);
        assert(0 <= (k - 1) * per_page && (k - 1) * per_page + per_page == k * per_page
            && (k - 1) * per_page <= k * per_page) by (nonlinear_arith)
            requires
                1 <= k,
                1 <= per_page,
        ;
        let prev = if (k - 1) * per_page <= rows.len() {
            (k - 1) * per_page
        } else {
            rows.len() as int
        };
        let next = if k * per_page <= rows.len() {
            k * per_page
        } else {
            rows.len() as int
        };
        assert(spec_window(rows, k, per_page) == rows.subrange(prev, next));
        assert(rows.subrange(0, prev) + rows.subrange(prev, next) =~= rows.subrange(0, next));
    }
}

/// Law: with a fixed `per_page`, the row windows of pages
/// `1..=spec_total_pages(rows.len(), per_page)`, concatenated in order,
/// reproduce the full row set — nothing is lost, duplicated or reordered.
pub proof fn lemma_pages_concat_complete<R>(rows: Seq<R>, per_page: int)
    requires
        1 <= per_page,
    ensures
        spec_pages_concat(rows, per_page, spec_total_pages(rows.len() as int, per_page)) == rows,
{
    let tp = spec_total_pages(rows.len() as int, per_page);
    lemma_total_pages_is_ceiling(rows.len() as int, per_page);
    lemma_pages_concat_prefix(rows, per_page, tp);
    assert(spec_pages_concat(rows, per_page, tp) =~= rows);
}

/// Law: an inner query with no rows paginates to an empty page, a reported
/// count of zero, and zero pages, whatever the page asked for.
pub proof fn lemma_empty_inner_query<R>(page: int, per_page: int)
    requires
        1 <= page,
        1 <= per_page,
    ensures
        spec_window(Seq::<R>::empty(), page, per_page) == Seq::<R>::empty(),
        spec_total_pages(0, per_page) == 0,
{
    assert(spec_offset(page, per_page) >= 0) by (nonlinear_arith)
        requires
            1 <= page,
            1 <= per_page,
    ;
    assert(spec_window(Seq::<R>::empty(), page, per_page) =~= Seq::<R>::empty());
    assert(per_page - 1 == 0 * per_page + (per_page - 1));
    lemma_fundamental_div_mod_converse(per_page - 1, per_page, 0, per_page - 1);
}

/// Law: paginating a bare data source and paginating an equivalent
/// select-everything query over the same source agree row for row — the
/// same window of the same row set and the same page count — while the
/// rendered statements differ only in the derived-table parentheses around
/// the inner fragment.  `rows` stands for the row set both inner shapes
/// produce un-paginated.
pub proof fn lemma_source_and_subquery_agree<R, T: QueryFragment, S: QuerySource>(
    sub: Paginated<T>,
    src: Paginated<QuerySourceToQueryFragment<S>>,
    rows: Seq<R>,
)
    requires
        sub.page == src.page,
        sub.per_page == src.per_page,
        sub.is_sub_query,
        !src.is_sub_query,
    ensures
        spec_window(rows, sub.page as int, sub.per_page as int) == spec_window(
            rows,
            src.page as int,
            src.per_page as int,
        ),
        sub.sql_model() == spec_paginated_sql(sub.query.sql_model(), true),
        src.sql_model() == spec_paginated_sql(src.query.query_source.from_sql_model(), false),
{
}

/// Law: the page window never reaches the statement text — two wrappers
/// around the same inner query render identical SQL whatever their `page`
/// and `per_page`, and the window values travel only as the two trailing
/// bound parameters.
pub proof fn lemma_window_values_only_bound<T: QueryFragment>(a: Paginated<T>, b: Paginated<T>)
    requires
        a.query == b.query,
        a.is_sub_query == b.is_sub_query,
    ensures
        a.sql_model() == b.sql_model(),
        a.binds_model() == a.query.binds_model() + seq![
            BindModel::BigInt(a.per_page as int),
            BindModel::BigInt(spec_offset(a.page as int, a.per_page as int)),
        ],
{
}

} // verus!
