//! SQL text assembly: raw fragments, identifier quoting, placeholders,
//! and the LIMIT/OFFSET clause shapes.

use diesel_duckdb::limit_offset::{BoxedLimitOffsetClause, LimitOffsetClause};
use diesel_duckdb::query_builder::DuckDBQueryBuilder;

#[test]
fn push_sql_appends_verbatim() {
    let mut qb = DuckDBQueryBuilder::new();
    qb.push_sql("SELECT * FROM ");
    qb.push_sql("users");
    assert_eq!(qb.finish(), "SELECT * FROM users");
}

#[test]
fn push_identifier_wraps_in_double_quotes() {
    let mut qb = DuckDBQueryBuilder::new();
    qb.push_identifier("users").unwrap();
    assert_eq!(qb.finish(), "\"users\"");
}

#[test]
fn push_identifier_doubles_embedded_quotes() {
    let mut qb = DuckDBQueryBuilder::new();
    qb.push_identifier("my \"weird\" name").unwrap();
    assert_eq!(qb.finish(), "\"my \"\"weird\"\" name\"");
}

#[test]
fn push_identifier_keeps_reserved_words_and_spaces() {
    let mut qb = DuckDBQueryBuilder::new();
    qb.push_identifier("select").unwrap();
    qb.push_sql(".");
    qb.push_identifier("group by").unwrap();
    assert_eq!(qb.finish(), "\"select\".\"group by\"");
}

#[test]
fn push_bind_param_emits_positional_placeholder() {
    let mut qb = DuckDBQueryBuilder::new();
    qb.push_sql("SELECT * FROM users WHERE age < ");
    qb.push_bind_param();
    qb.push_sql(" AND name = ");
    qb.push_bind_param();
    assert_eq!(qb.finish(), "SELECT * FROM users WHERE age < ? AND name = ?");
}

/// Read a quoted identifier the way the engine's parser does: strip the
/// surrounding quotes, read each doubled quote as one.
fn unquote(q: &str) -> Option<String> {
    let body = q.strip_prefix('"')?.strip_suffix('"')?;
    let mut out = String::new();
    let mut chars = body.chars();
    while let Some(c) = chars.next() {
        if c == '"' {
            if chars.next() != Some('"') {
                return None;
            }
            out.push('"');
        } else {
            out.push(c);
        }
    }
    Some(out)
}

#[test]
fn quoting_round_trips_through_unquoting() {
    for name in ["users", "group by", "my \"weird\" name", "\"", "\"\"", "", "a\"b\"\"c"] {
        let mut qb = DuckDBQueryBuilder::new();
        qb.push_identifier(name).unwrap();
        assert_eq!(unquote(&qb.finish()).as_deref(), Some(name));
    }
}

fn render_static(c: LimitOffsetClause) -> String {
    let mut qb = DuckDBQueryBuilder::new();
    c.walk_ast(&mut qb).unwrap();
    qb.finish()
}

fn render_boxed(limit: Option<i64>, offset: Option<i64>) -> String {
    let mut qb = DuckDBQueryBuilder::new();
    BoxedLimitOffsetClause { limit, offset }.walk_ast(&mut qb).unwrap();
    qb.finish()
}

#[test]
fn limit_only_renders_limit_fragment() {
    assert_eq!(render_static(LimitOffsetClause::LimitOnly(3)), "LIMIT 3");
    assert_eq!(render_boxed(Some(3), None), "LIMIT 3");
}

#[test]
fn offset_only_renders_offset_fragment() {
    assert_eq!(render_static(LimitOffsetClause::OffsetOnly(2)), "OFFSET 2");
    assert_eq!(render_boxed(None, Some(2)), "OFFSET 2");
}

#[test]
fn limit_and_offset_render_in_fixed_order() {
    assert_eq!(render_static(LimitOffsetClause::LimitAndOffset(2, 1)), "LIMIT 2 OFFSET 1");
    assert_eq!(render_boxed(Some(2), Some(1)), "LIMIT 2 OFFSET 1");
}

#[test]
fn no_limit_no_offset_renders_nothing() {
    assert_eq!(render_static(LimitOffsetClause::NoLimitNoOffset), "");
    assert_eq!(render_boxed(None, None), "");
}

#[test]
fn boxed_shape_renders_like_static_shape() {
    let shapes = [
        LimitOffsetClause::NoLimitNoOffset,
        LimitOffsetClause::LimitOnly(0),
        LimitOffsetClause::LimitOnly(i64::MAX),
        LimitOffsetClause::OffsetOnly(-7),
        LimitOffsetClause::LimitAndOffset(i64::MIN, 99),
    ];
    for c in shapes {
        let b = c.into_boxed();
        assert_eq!(render_static(c), render_boxed(b.limit, b.offset));
    }
}

#[test]
fn extreme_values_render_exactly() {
    assert_eq!(
        render_static(LimitOffsetClause::LimitOnly(i64::MIN)),
        "LIMIT -9223372036854775808"
    );
    assert_eq!(
        render_static(LimitOffsetClause::OffsetOnly(i64::MAX)),
        "OFFSET 9223372036854775807"
    );
}
