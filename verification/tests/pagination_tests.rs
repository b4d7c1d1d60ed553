use paginator::pagination::evaluate_windowed;
use paginator::pagination::PaginateForQueryFragment;
use paginator::pagination::PaginateForQuerySource;
use paginator::query_builder::AstPass;
use paginator::query_builder::Bind;
use paginator::query_builder::QueryFragment;
use paginator::query_builder::SqlFragment;
use paginator::query_builder::Table;

fn table_rows(n: i64) -> Vec<i64> {
    let mut rows = Vec::new();
    let mut i: i64 = 1;
    while i <= n {
        rows.push(i);
        i += 1;
    }
    rows
}

fn posts_query() -> SqlFragment {
    SqlFragment::new(
        String::from("SELECT * FROM posts WHERE id >= ?"),
        vec![Bind::BigInt(0)],
    )
}

#[test]
fn first_page_of_twenty_three_rows() {
    let q = posts_query().paginate(1).per_page(5);
    let results = evaluate_windowed(table_rows(23), 1, 5);
    let (rows, total_pages) = q.load_and_count_pages(results);
    assert_eq!(rows, vec![1, 2, 3, 4, 5]);
    assert_eq!(total_pages, 5);
}

#[test]
fn last_partial_page_of_twenty_three_rows() {
    let q = posts_query().paginate(5).per_page(5);
    let results = evaluate_windowed(table_rows(23), 5, 5);
    let (rows, total_pages) = q.load_and_count_pages(results);
    assert_eq!(rows, vec![21, 22, 23]);
    assert_eq!(total_pages, 5);
}

#[test]
fn page_past_the_end_returns_nothing() {
    let q = posts_query().paginate(6).per_page(5);
    let results = evaluate_windowed(table_rows(23), 6, 5);
    assert!(results.is_empty());
    let (rows, total_pages) = q.load_and_count_pages(results);
    assert!(rows.is_empty());
    assert_eq!(total_pages, 0);
}

#[test]
fn empty_result_set_gives_empty_page_and_zero_pages() {
    let q = posts_query().paginate(1).per_page(10);
    let results = evaluate_windowed(Vec::<i64>::new(), 1, 10);
    let (rows, total_pages) = q.load_and_count_pages(results);
    assert!(rows.is_empty());
    assert_eq!(total_pages, 0);
}

#[test]
fn every_page_holds_at_most_per_page_rows() {
    for page in 1..=7 {
        let results = evaluate_windowed(table_rows(23), page, 4);
        assert!(results.len() <= 4);
    }
}

#[test]
fn concatenating_all_pages_reproduces_the_row_set() {
    let mut seen: Vec<i64> = Vec::new();
    let mut total_pages: i64 = -1;
    let mut page: i64 = 1;
    loop {
        let q = posts_query().paginate(page).per_page(5);
        let results = evaluate_windowed(table_rows(23), page, 5);
        let (mut rows, pages) = q.load_and_count_pages(results);
        if page == 1 {
            total_pages = pages;
        }
        seen.append(&mut rows);
        if page >= total_pages {
            break;
        }
        page += 1;
    }
    assert_eq!(seen, table_rows(23));
}

#[test]
fn limit_and_offset_are_bound_not_inlined() {
    let q = posts_query().paginate(4).per_page(37);
    let mut out = AstPass::new();
    q.walk_ast(&mut out);
    assert_eq!(
        out.sql,
        "SELECT *, COUNT(*) OVER () FROM (SELECT * FROM posts WHERE id >= ?) t LIMIT ? OFFSET ?"
    );
    assert!(!out.sql.contains("37"));
    assert!(!out.sql.contains("111"));
    assert_eq!(
        out.binds,
        vec![Bind::BigInt(0), Bind::BigInt(37), Bind::BigInt(111)]
    );
}

#[test]
fn source_and_subquery_paths_render_differently_but_agree() {
    let from_source = Table::new(String::from("posts")).paginate(1).per_page(5);
    let from_query = SqlFragment::new(String::from("SELECT * FROM posts"), Vec::new())
        .paginate(1)
        .per_page(5);

    let mut source_out = AstPass::new();
    from_source.walk_ast(&mut source_out);
    let mut query_out = AstPass::new();
    from_query.walk_ast(&mut query_out);

    assert_eq!(
        source_out.sql,
        "SELECT *, COUNT(*) OVER () FROM posts t LIMIT ? OFFSET ?"
    );
    assert_eq!(
        query_out.sql,
        "SELECT *, COUNT(*) OVER () FROM (SELECT * FROM posts) t LIMIT ? OFFSET ?"
    );
    assert_ne!(source_out.sql, query_out.sql);

    let rows = table_rows(23);
    let (source_rows, source_pages) =
        from_source.load_and_count_pages(evaluate_windowed(rows.clone(), 1, 5));
    let (query_rows, query_pages) =
        from_query.load_and_count_pages(evaluate_windowed(rows, 1, 5));
    assert_eq!(source_rows, query_rows);
    assert_eq!(source_pages, query_pages);
}

#[test]
fn per_page_returns_an_updated_copy() {
    let base = posts_query().paginate(2);
    let mut out = AstPass::new();
    base.per_page(3).walk_ast(&mut out);
    assert_eq!(
        out.binds,
        vec![Bind::BigInt(0), Bind::BigInt(3), Bind::BigInt(3)]
    );

    let mut out_default = AstPass::new();
    posts_query().paginate(2).walk_ast(&mut out_default);
    assert_eq!(
        out_default.binds,
        vec![Bind::BigInt(0), Bind::BigInt(10), Bind::BigInt(10)]
    );
}

#[test]
fn inner_binds_keep_their_order_before_the_window_binds() {
    let inner = SqlFragment::new(
        String::from("SELECT * FROM posts WHERE title = ? AND id >= ?"),
        vec![Bind::Text(String::from("xxx")), Bind::BigInt(7)],
    );
    let q = inner.paginate(3).per_page(20);
    let mut out = AstPass::new();
    q.walk_ast(&mut out);
    assert_eq!(
        out.binds,
        vec![
            Bind::Text(String::from("xxx")),
            Bind::BigInt(7),
            Bind::BigInt(20),
            Bind::BigInt(40),
        ]
    );
}

// An extension-DSL walkthrough: a filtered query and a bare table are
// paginated, and a custom infix operator is rendered, against the in-memory
// engine model instead of a live connection.
#[test]
fn test_extend_query_builder() {
    let name = SqlFragment::new(String::from("name"), Vec::new());
    let lowered = paginator::functions::lower(name.clone());
    let mut out = AstPass::new();
    lowered.walk_ast(&mut out);
    println!("sql = {}", out.sql);
    assert_eq!(out.sql, "lower(name)");

    let concatenated = paginator::functions::concat2(
        name,
        SqlFragment::new(String::from("?"), vec![Bind::Text(String::from("name"))]),
    );
    let mut out = AstPass::new();
    concatenated.walk_ast(&mut out);
    println!("sql = {}", out.sql);
    assert_eq!(out.sql, "concat(name, ?)");
    assert_eq!(out.binds, vec![Bind::Text(String::from("name"))]);

    let generated = paginator::functions::last_insert_id();
    let mut out = AstPass::new();
    generated.walk_ast(&mut out);
    println!("sql = {}", out.sql);
    assert_eq!(out.sql, "last_insert_id()");

    let filtered = SqlFragment::new(
        String::from("SELECT * FROM posts WHERE id >= ? AND id >= ?"),
        vec![Bind::BigInt(0), Bind::BigInt(0)],
    );
    let query = filtered.paginate(1).per_page(3);
    let mut out = AstPass::new();
    query.walk_ast(&mut out);
    println!("sql = {}", out.sql);
    assert_eq!(
        out.sql,
        "SELECT *, COUNT(*) OVER () FROM (SELECT * FROM posts WHERE id >= ? AND id >= ?) t LIMIT ? OFFSET ?"
    );
    let r = query.load_and_count_pages(evaluate_windowed(table_rows(23), 1, 3));
    assert_eq!(r.0, vec![1, 2, 3]);
    assert_eq!(r.1, 8);

    let query = Table::new(String::from("posts")).paginate(1).per_page(3);
    let mut out = AstPass::new();
    query.walk_ast(&mut out);
    println!("sql = {}", out.sql);
    assert_eq!(out.sql, "SELECT *, COUNT(*) OVER () FROM posts t LIMIT ? OFFSET ?");

    let id = SqlFragment::new(String::from("id"), Vec::new());
    let one = SqlFragment::new(String::from("?"), vec![Bind::BigInt(1)]);
    let masked = paginator::predicates::BigIntBitOperatorExtensions::bit_and(id, one);
    let mut out = AstPass::new();
    masked.walk_ast(&mut out);
    println!("sql = {}", out.sql);
    assert_eq!(out.sql, "id & ?");
}

#[test]
fn window_count_is_attached_to_every_returned_row() {
    let results = evaluate_windowed(table_rows(23), 2, 5);
    assert_eq!(results.len(), 5);
    for (row, count) in &results {
        assert_eq!(*count, 23);
        assert!((6..=10).contains(row));
    }
}
