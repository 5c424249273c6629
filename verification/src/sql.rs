//! The SQL statements the collector runs on an index's table: creating it,
//! writing an entry, and reading entries for a search or a report. The
//! statements are built with sea_query for PostgreSQL; each comes with the
//! values bound to its placeholders.
use vstd::prelude::*;
use vstd::string::*;
use crate::admin::{jsonpath_condition, search_condition, search_condition_spec, search_window};
use sea_query::{Alias, ColumnDef, Expr, PostgresQueryBuilder, Query, Table};

verus! {

#[verifier::external_type_specification]
#[verifier::external_body]
pub struct ExValue(sea_query::Value);

/// The columns of an index's table.
pub open spec fn id_column() -> Seq<char> {
    "id"@
}

pub open spec fn time_column() -> Seq<char> {
    "timestamp"@
}

pub open spec fn data_column() -> Seq<char> {
    "data"@
}

/// An identifier as PostgreSQL reads it: in double quotes, each double quote
/// inside doubled.
pub open spec fn quoted_iden(s: Seq<char>) -> Seq<char> {
    seq!['"'] + double_quotes(s) + seq!['"']
}

pub open spec fn double_quotes(s: Seq<char>) -> Seq<char>
    decreases s.len(),
{
    if s.len() == 0 {
        s
    } else if s.last() == '"' {
        double_quotes(s.drop_last()) + seq!['"', '"']
    } else {
        double_quotes(s.drop_last()).push(s.last())
    }
}

/// `"<schema>"."<table>"`, the way sea_query writes a table in a schema.
pub open spec fn table_ref(schema: Seq<char>, table: Seq<char>) -> Seq<char> {
    quoted_iden(schema) + "."@ + quoted_iden(table)
}

/// `INSERT INTO "<schema>"."<index>" ("<c1>", "<c2>") VALUES ($1, $2)`: the
/// first column takes the first bound value, the second the second.
pub open spec fn insert_sql(schema: Seq<char>, index: Seq<char>, c1: Seq<char>, c2: Seq<char>) -> Seq<
    char,
> {
    "INSERT INTO "@ + table_ref(schema, index) + " ("@ + quoted_iden(c1) + ", "@ + quoted_iden(c2)
        + ") VALUES ($1, $2)"@
}

/// `CREATE TABLE "<schema>"."<name>"` with a uuid column `id` (with the extra
/// `id_extra`, not null), a `timestamp with time zone` column `time` (with
/// `time_extra`, not null) and a jsonb column `data` (not null).
pub open spec fn create_table_sql(
    schema: Seq<char>,
    name: Seq<char>,
    id: Seq<char>,
    time: Seq<char>,
    data: Seq<char>,
    id_extra: Seq<char>,
    time_extra: Seq<char>,
) -> Seq<char> {
    "CREATE TABLE "@ + table_ref(schema, name) + " ( "@ + quoted_iden(id) + " uuid "@ + id_extra
        + " NOT NULL, "@ + quoted_iden(time) + " timestamp with time zone "@ + time_extra
        + " NOT NULL, "@ + quoted_iden(data) + " jsonb NOT NULL )"@
}

/// `SELECT "<id>", "<time>", "<data>" FROM "<schema>"."<index>"`.
pub open spec fn select_sql(
    schema: Seq<char>,
    index: Seq<char>,
    id: Seq<char>,
    time: Seq<char>,
    data: Seq<char>,
) -> Seq<char> {
    "SELECT "@ + quoted_iden(id) + ", "@ + quoted_iden(time) + ", "@ + quoted_iden(data) + " FROM "@
        + table_ref(schema, index)
}

/// The select of a search: rows whose `time` is after the date bound as `$1`
/// and that meet the raw `condition`; where `has_end`, also before the date
/// bound as `$2`; then the limit and the offset as the last two bound values.
pub open spec fn search_sql(
    schema: Seq<char>,
    index: Seq<char>,
    id: Seq<char>,
    time: Seq<char>,
    data: Seq<char>,
    condition: Seq<char>,
    has_end: bool,
) -> Seq<char> {
    select_sql(schema, index, id, time, data) + " WHERE "@ + quoted_iden(time) + " > $1 AND ("@
        + condition + ")"@ + if has_end {
        " AND "@ + quoted_iden(time) + " < $2 LIMIT $3 OFFSET $4"@
    } else {
        " LIMIT $2 OFFSET $3"@
    }
}

/// The select of a report: rows whose `time` is at or after the moment bound
/// as `$1` and that meet the raw `condition`.
pub open spec fn report_sql(
    schema: Seq<char>,
    index: Seq<char>,
    id: Seq<char>,
    time: Seq<char>,
    data: Seq<char>,
    condition: Seq<char>,
) -> Seq<char> {
    select_sql(schema, index, id, time, data) + " WHERE "@ + quoted_iden(time) + " >= $1 AND ("@
        + condition + ")"@
}

/// The value sea_query binds for a `u64` (its `Value::BigUnsigned`), as
/// `SelectStatement::limit` and `offset` bind theirs.
pub uninterp spec fn bound_u64(n: u64) -> sea_query::Value;

/// sea_query's `Table::create()` on `"schema"."name"` with the three columns
/// (uuid, timestamp with time zone, jsonb; each not null, the first two with
/// their extras), built for PostgreSQL: the text of `create_table_sql`.
#[verifier::external_body]
fn table_ddl(
    schema: &str,
    name: &str,
    id: &str,
    time: &str,
    data: &str,
    id_extra: &str,
    time_extra: &str,
) -> (r: String)
    ensures
        r@ == create_table_sql(schema@, name@, id@, time@, data@, id_extra@, time_extra@),
{
    Table::create().table((Alias::new(schema), Alias::new(name))).col(
        ColumnDef::new(Alias::new(id)).uuid().extra(id_extra.to_string()).not_null(),
    ).col(
        ColumnDef::new(Alias::new(time)).timestamp_with_time_zone().extra(
            time_extra.to_string(),
        ).not_null(),
    ).col(ColumnDef::new(Alias::new(data)).json_binary().not_null()).to_owned().build(
        PostgresQueryBuilder,
    )
}

/// sea_query's `Query::insert()` into `"schema"."index"` of the two columns with
/// the two values, built for PostgreSQL. `values_panic` panics only when the
/// numbers of columns and values differ, and here both are two. Each value is
/// bound as it is given (a clone), in the order given.
#[verifier::external_body]
fn insert_row(
    schema: &str,
    index: &str,
    c1: &str,
    c2: &str,
    v1: sea_query::Value,
    v2: sea_query::Value,
) -> (r: (String, Vec<sea_query::Value>))
    ensures
        r.0@ == insert_sql(schema@, index@, c1@, c2@),
        r.1@ == seq![v1, v2],
{
    let (s, v) = Query::insert().into_table((Alias::new(schema), Alias::new(index))).columns(
        [Alias::new(c1), Alias::new(c2)],
    ).values_panic([v1.into(), v2.into()]).build(PostgresQueryBuilder);
    (s, v.0)
}

/// sea_query's select of the three columns from `"schema"."index"` after
/// `start`, with `condition`, limited to `take` and offset by `skip`, built for
/// PostgreSQL. `start` is bound first, then `take` for the limit and `skip`
/// for the offset.
#[verifier::external_body]
fn select_window(
    schema: &str,
    index: &str,
    id: &str,
    time: &str,
    data: &str,
    condition: &str,
    take: u64,
    skip: u64,
    start: sea_query::Value,
) -> (r: (String, Vec<sea_query::Value>))
    ensures
        r.0@ == search_sql(schema@, index@, id@, time@, data@, condition@, false),
        r.1@ == seq![start, bound_u64(take), bound_u64(skip)],
{
    let (s, v) = Query::select().from((Alias::new(schema), Alias::new(index))).columns(
        [Alias::new(id), Alias::new(time), Alias::new(data)],
    ).and_where(Expr::col(Alias::new(time)).gt(start)).and_where(Expr::cust(condition)).limit(
        take,
    ).offset(skip).to_owned().build(PostgresQueryBuilder);
    (s, v.0)
}

/// As `select_window`, and before `end` too: `start` is bound first, `end`
/// second, then `take` for the limit and `skip` for the offset.
#[verifier::external_body]
fn select_window_until(
    schema: &str,
    index: &str,
    id: &str,
    time: &str,
    data: &str,
    condition: &str,
    take: u64,
    skip: u64,
    start: sea_query::Value,
    end: sea_query::Value,
) -> (r: (String, Vec<sea_query::Value>))
    ensures
        r.0@ == search_sql(schema@, index@, id@, time@, data@, condition@, true),
        r.1@ == seq![start, end, bound_u64(take), bound_u64(skip)],
{
    let (s, v) = Query::select().from((Alias::new(schema), Alias::new(index))).columns(
        [Alias::new(id), Alias::new(time), Alias::new(data)],
    ).and_where(Expr::col(Alias::new(time)).gt(start)).and_where(Expr::cust(condition)).limit(
        take,
    ).offset(skip).and_where(Expr::col(Alias::new(time)).lt(end)).to_owned().build(
        PostgresQueryBuilder,
    );
    (s, v.0)
}

/// sea_query's select of the three columns from `"schema"."index"` from
/// `from` on, with `condition`, built for PostgreSQL; `from` is the one bound
/// value.
#[verifier::external_body]
fn select_since(
    schema: &str,
    index: &str,
    id: &str,
    time: &str,
    data: &str,
    condition: &str,
    from: sea_query::Value,
) -> (r: (String, Vec<sea_query::Value>))
    ensures
        r.0@ == report_sql(schema@, index@, id@, time@, data@, condition@),
        r.1@ == seq![from],
{
    let (s, v) = Query::select().from((Alias::new(schema), Alias::new(index))).columns(
        [Alias::new(id), Alias::new(time), Alias::new(data)],
    ).and_where(Expr::col(Alias::new(time)).gte(from)).and_where(Expr::cust(condition)).to_owned().build(
        PostgresQueryBuilder,
    );
    (s, v.0)
}

/// The statement that creates the table of a new index in `schema`: `id`
/// (uuid, generated), `timestamp` (with time zone, now by default), `data`
/// (jsonb).
pub fn create_table_statement(schema: &str, name: &str) -> (r: String)
    ensures
        r@ == create_table_sql(
            schema@,
            name@,
            id_column(),
            time_column(),
            data_column(),
            "DEFAULT uuid_generate_v4()"@,
            "DEFAULT NOW()"@,
        ),
{
    table_ddl(schema, name, "id", "timestamp", "data", "DEFAULT uuid_generate_v4()", "DEFAULT NOW()")
}

/// The statement that writes an entry into the table of `index`: `data` (the
/// entry, as a JSON value) is bound as `$1`, `time` (when it arrived) as `$2`.
pub fn insert_statement(
    schema: &str,
    index: &str,
    data: sea_query::Value,
    time: sea_query::Value,
) -> (r: (String, Vec<sea_query::Value>))
    ensures
        r.0@ == insert_sql(schema@, index@, data_column(), time_column()),
        r.1@ == seq![data, time],
{
    insert_row(schema, index, "data", "timestamp", data, time)
}

/// The statement of a search in the table of `index`: entries after the date
/// `start` (and before the date `end`, where given), matching the query where
/// given, in the window of `take` (10 by default) entries after `skip` (0 by
/// default). `start` is bound as `$1` and `end`, where given, as `$2`; the
/// page size and the skip follow.
pub fn search_statement(
    schema: &str,
    index: &str,
    query: &Option<String>,
    take: Option<u64>,
    skip: Option<u64>,
    start: sea_query::Value,
    end: Option<sea_query::Value>,
) -> (r: (String, Vec<sea_query::Value>))
    ensures
        r.0@ == search_sql(
            schema@,
            index@,
            id_column(),
            time_column(),
            data_column(),
            search_condition_spec(
                match query {
                    Some(q) => Some(q@),
                    None => None,
                },
            ),
            end is Some,
        ),
        r.1@ == (match end {
            Some(e) => seq![start, e],
            None => seq![start],
        }) + seq![
            bound_u64(
                match take {
                    Some(t) => t,
                    None => 10,
                },
            ),
            bound_u64(
                match skip {
                    Some(s) => s,
                    None => 0,
                },
            ),
        ],
{
    let condition = search_condition(query);
    let (t, s) = search_window(take, skip);
    match end {
        Some(e) => select_window_until(
            schema,
            index,
            "id",
            "timestamp",
            "data",
            condition.as_str(),
            t,
            s,
            start,
            e,
        ),
        None => select_window(
            schema,
            index,
            "id",
            "timestamp",
            "data",
            condition.as_str(),
            t,
            s,
            start,
        ),
    }
}

/// The statement that reads the entries of `index` for a report: those from
/// the moment `from` on (bound as `$1`) that match the report's query.
pub fn report_statement(schema: &str, index: &str, query: &str, from: sea_query::Value) -> (r: (
    String,
    Vec<sea_query::Value>,
))
    ensures
        r.0@ == report_sql(
            schema@,
            index@,
            id_column(),
            time_column(),
            data_column(),
            search_condition_spec(Some(query@)),
        ),
        r.1@ == seq![from],
{
    let condition = jsonpath_condition(query);
    select_since(schema, index, "id", "timestamp", "data", condition.as_str(), from)
}

/// The day, counted from 1 January 1970 as day 0, on which the moment `secs`
/// (seconds since the Unix epoch) falls at the UTC offset `offset_secs`: the
/// local date of that moment.
pub open spec fn local_day(secs: int, offset_secs: int) -> int {
    (secs + offset_secs) / 86400
}

/// The value sea_query binds for chrono's `NaiveDate::from_epoch_days(days)`,
/// or `None` where chrono has no such date.
pub uninterp spec fn epoch_day_value(days: i32) -> Option<sea_query::Value>;

/// chrono's `NaiveDate::from_epoch_days(days)`, as the value sea_query binds
/// for it.
#[verifier::external_body]
fn day_value(days: i32) -> (r: Option<sea_query::Value>)
    ensures
        r == epoch_day_value(days),
{
    match chrono::NaiveDate::from_epoch_days(days) {
        Some(d) => Some(sea_query::Value::from(d)),
        None => None,
    }
}

/// The date a search bound is cut to: the local date of the moment `secs` at
/// the UTC offset `offset_secs`, as the value bound into the search, or
/// `None` where that date is beyond chrono's calendar.
pub fn search_day(secs: i64, offset_secs: i32) -> (r: Option<sea_query::Value>)
    ensures
        r == (if i32::MIN <= local_day(secs as int, offset_secs as int) <= i32::MAX {
            epoch_day_value(local_day(secs as int, offset_secs as int) as i32)
        } else {
            None
        }),
{
    let t: i128 = secs as i128 + offset_secs as i128;
    let k: i128 = 140737488355328;
    let shifted: i128 = t + 86400 * k;
    assert(shifted >= 0);
    let q: u128 = (shifted as u128) / 86400;
    let day: i128 = q as i128 - k;
    assert(day == local_day(secs as int, offset_secs as int)) by (nonlinear_arith)
        requires
            t == secs + offset_secs,
            k == 140737488355328,
            shifted == t + 86400 * k,
            shifted >= 0,
            q == shifted / 86400,
            day == q - k,
    {}
    if day < i32::MIN as i128 || day > i32::MAX as i128 {
        None
    } else {
        day_value(day as i32)
    }
}

} // verus!
