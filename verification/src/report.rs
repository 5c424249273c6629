//! Report files: a header line that names the chosen columns, then one line
//! per stored document with the values found along each column's path.
use vstd::prelude::*;
use vstd::string::*;
use crate::json::{
    json_quoted, json_text, opt_view, quote, string_list_spec, walk_spec, JsonValue,
};
use crate::text::{
    string_views,
    concat_spec, join_spec, join_strings, lemma_join_split, lemma_trim_end_result, push_char,
    replace_char, replace_char_spec, split_char, split_spec, trim_end_char, trim_end_spec,
};

verus! {

/// Why a report could not be written.
#[derive(Debug, PartialEq, Eq, Structural)]
pub enum ReportError {
    /// The report's column list is not an array of strings.
    ColumnsNotStrings,
}

/// The path that a column names: its text cut at each `.`.
pub open spec fn column_path(column: Seq<char>) -> Seq<Seq<char>> {
    split_spec(column, '.')
}

/// A header field: the column's path joined with `.` again, in double quotes.
pub open spec fn header_field(column: Seq<char>) -> Seq<char> {
    seq!['"'] + join_spec(column_path(column), seq!['.']) + seq!['"']
}

/// The header line (without its line break).
pub open spec fn header_spec(columns: Seq<Seq<char>>) -> Seq<char> {
    join_spec(columns.map_values(|c: Seq<char>| header_field(c)), seq![','])
}

/// The text a row holds for the value found along one column's path: nothing
/// for a missing value or `null`; a JSON string literal and a comma for a
/// string; any other value's JSON text, with its double quotes turned into
/// single quotes, in double quotes, and a comma.
pub open spec fn cell_spec(v: Option<JsonValue>) -> Seq<char> {
    match v {
        None => Seq::<char>::empty(),
        Some(JsonValue::Null) => Seq::<char>::empty(),
        Some(JsonValue::String(s)) => json_quoted(s@).push(','),
        Some(other) => seq!['"'] + replace_char_spec(json_text(other), '"', '\'') + seq!['"', ','],
    }
}

/// The cells of a document, one per column path.
pub open spec fn cells_spec(data: JsonValue, paths: Seq<Seq<Seq<char>>>) -> Seq<Seq<char>> {
    paths.map_values(|p: Seq<Seq<char>>| cell_spec(walk_spec(data, p)))
}

/// A data line (without its line break): the cells one after the other, with
/// the trailing commas taken off.
pub open spec fn row_spec(data: JsonValue, paths: Seq<Seq<Seq<char>>>) -> Seq<char> {
    trim_end_spec(concat_spec(cells_spec(data, paths)), ',')
}

/// The lines of the data rows, each followed by its line break.
pub open spec fn rows_text_spec(rows: Seq<JsonValue>, paths: Seq<Seq<Seq<char>>>) -> Seq<char>
    decreases rows.len(),
{
    if rows.len() == 0 {
        Seq::<char>::empty()
    } else {
        rows_text_spec(rows.drop_last(), paths) + row_spec(rows.last(), paths) + "\r\n"@
    }
}

/// The whole report: header line, line break, data lines.
pub open spec fn report_spec(columns: Seq<Seq<char>>, rows: Seq<JsonValue>) -> Seq<char> {
    header_spec(columns) + "\r\n"@ + rows_text_spec(rows, columns.map_values(|c: Seq<char>| column_path(c)))
}

/// The column list a report keeps: absent means no columns.
pub open spec fn columns_spec(columns: Option<JsonValue>) -> Option<Seq<Seq<char>>> {
    match columns {
        None => Some(Seq::<Seq<char>>::empty()),
        Some(v) => string_list_spec(v),
    }
}

/// The paths of the columns.
pub fn column_paths(columns: &Vec<String>) -> (r: Vec<Vec<String>>)
    ensures
        r@.len() == columns@.len(),
        forall|i: int| 0 <= i < r@.len() ==> string_views(#[trigger] r@[i]@) == column_path(columns@[i]@),
{
    let mut r: Vec<Vec<String>> = Vec::new();
    let mut i: usize = 0;
    while i < columns.len()
        invariant
            i <= columns.len(),
            r@.len() == i,
            forall|k: int| 0 <= k < i ==> string_views(#[trigger] r@[k]@) == column_path(columns@[k]@),
        decreases columns.len() - i,
    {
        let parts = split_char(columns[i].as_str(), '.');
        r.push(parts);
        i = i + 1;
    }
    r
}

/// The header line (without its line break).
pub fn header_line(columns: &Vec<String>) -> (r: String)
    ensures
        r@ == header_spec(columns@.map_values(|c: String| c@)),
{
    let ghost cols = columns@.map_values(|c: String| c@);
    let mut fields: Vec<String> = Vec::new();
    let mut i: usize = 0;
    while i < columns.len()
        invariant
            i <= columns.len(),
            cols == columns@.map_values(|c: String| c@),
            string_views(fields@) == cols.take(i as int).map_values(|c: Seq<char>| header_field(c)),
        decreases columns.len() - i,
    {
        let parts = split_char(columns[i].as_str(), '.');
        let mut field = String::new();
        push_char(&mut field, '"');
        let joined = join_strings(&parts, ".");
        field.append(joined.as_str());
        push_char(&mut field, '"');
        proof {
            reveal_strlit(".");
            assert("."@ =~= seq!['.']);
            assert(cols[i as int] == columns@[i as int]@);
            assert(string_views(parts@) == parts@.map_values(|p: String| p@));
            assert(field@ =~= header_field(cols[i as int]));
        }
        let ghost before = fields@;
        fields.push(field);
        assert(string_views(fields@) =~= string_views(before).push(field@));
        assert(cols.take(i + 1).map_values(|c: Seq<char>| header_field(c)) =~= cols.take(
            i as int,
        ).map_values(|c: Seq<char>| header_field(c)).push(header_field(cols[i as int])));
        i = i + 1;
    }
    assert(cols.take(columns.len() as int) =~= cols);
    let r = join_strings(&fields, ",");
    proof {
        reveal_strlit(",");
        assert(","@ =~= seq![',']);
        assert(string_views(fields@) == fields@.map_values(|p: String| p@));
    }
    r
}

/// The text of one cell.
pub fn cell(v: Option<&JsonValue>) -> (r: String)
    ensures
        r@ == cell_spec(opt_view(v)),
{
    match v {
        None => String::new(),
        Some(JsonValue::Null) => String::new(),
        Some(JsonValue::String(s)) => {
            let mut r = quote(s.as_str());
            push_char(&mut r, ',');
            r
        },
        Some(other) => {
            let t = other.text();
            let swapped = replace_char(t.as_str(), '"', '\'');
            let mut r = String::new();
            push_char(&mut r, '"');
            r.append(swapped.as_str());
            push_char(&mut r, '"');
            push_char(&mut r, ',');
            assert(r@ =~= seq!['"'] + swapped@ + seq!['"', ',']);
            r
        },
    }
}

pub open spec fn paths_view(paths: Seq<Vec<String>>) -> Seq<Seq<Seq<char>>> {
    paths.map_values(|p: Vec<String>| string_views(p@))
}

/// One data line (without its line break).
pub fn row_line(data: &JsonValue, paths: &Vec<Vec<String>>) -> (r: String)
    ensures
        r@ == row_spec(*data, paths_view(paths@)),
{
    let ghost ps = paths_view(paths@);
    let mut acc = String::new();
    let mut i: usize = 0;
    while i < paths.len()
        invariant
            i <= paths.len(),
            ps == paths_view(paths@),
            acc@ == concat_spec(cells_spec(*data, ps.take(i as int))),
        decreases paths.len() - i,
    {
        let found = data.lookup(&paths[i]);
        let c = cell(found);
        acc.append(c.as_str());
        assert(cells_spec(*data, ps.take(i + 1)).drop_last() =~= cells_spec(
            *data,
            ps.take(i as int),
        ));
        i = i + 1;
    }
    assert(ps.take(paths.len() as int) =~= ps);
    trim_end_char(acc.as_str(), ',')
}

/// The report text for the stored documents `rows` and the column list
/// `columns` (absent: no columns). `Err` where the column list is not an array
/// of strings.
pub fn report_csv(columns: Option<&JsonValue>, rows: &Vec<JsonValue>) -> (r: Result<
    String,
    ReportError,
>)
    ensures
        r is Err <==> columns_spec(opt_view(columns)) is None,
        r matches Ok(t) ==> t@ == report_spec(columns_spec(opt_view(columns))->0, rows@),
        r matches Err(e) ==> e == ReportError::ColumnsNotStrings,
{
    let names: Vec<String> = match columns {
        None => Vec::new(),
        Some(v) => match v.string_list() {
            Some(l) => l,
            None => {
                return Err(ReportError::ColumnsNotStrings);
            },
        },
    };
    let ghost cols = string_views(names@);
    assert(cols == columns_spec(opt_view(columns))->0) by {
        if columns is None {
            assert(cols =~= Seq::<Seq<char>>::empty());
        }
    }
    let paths = column_paths(&names);
    let ghost pv = cols.map_values(|c: Seq<char>| column_path(c));
    assert(paths_view(paths@) =~= pv);
    let mut out = header_line(&names);
    out.append("\r\n");
    let ghost head = out@;
    let mut i: usize = 0;
    assert(rows@.take(0) =~= Seq::<JsonValue>::empty());
    while i < rows.len()
        invariant
            i <= rows.len(),
            paths_view(paths@) == pv,
            out@ == head + rows_text_spec(rows@.take(i as int), pv),
        decreases rows.len() - i,
    {
        let line = row_line(&rows[i], &paths);
        out.append(line.as_str());
        out.append("\r\n");
        assert(rows@.take(i + 1).drop_last() =~= rows@.take(i as int));
        assert(out@ =~= head + rows_text_spec(rows@.take(i + 1), pv));
        i = i + 1;
    }
    assert(rows@.take(rows.len() as int) =~= rows@);
    assert(names@.map_values(|c: String| c@) =~= cols);
    Ok(out)
}

// ---------------------------------------------------------------------------
// Laws
// ---------------------------------------------------------------------------

/// Each header field is the column's own text in double quotes: cutting the
/// column at its dots and joining the pieces again changes nothing.
pub proof fn header_field_is_quoted_column(column: Seq<char>)
    ensures
        header_field(column) == seq!['"'] + column + seq!['"'],
{
    lemma_join_split(column, '.');
}

/// The header line is the columns, each in double quotes, joined with commas.
pub proof fn header_is_quoted_columns(columns: Seq<Seq<char>>)
    ensures
        header_spec(columns) == join_spec(
            columns.map_values(|c: Seq<char>| seq!['"'] + c + seq!['"']),
            seq![','],
        ),
{
    let a = columns.map_values(|c: Seq<char>| header_field(c));
    let b = columns.map_values(|c: Seq<char>| seq!['"'] + c + seq!['"']);
    assert forall|i: int| 0 <= i < columns.len() implies a[i] == b[i] by {
        header_field_is_quoted_column(columns[i]);
    }
    assert(a =~= b);
}

/// A data line never ends in a comma.
pub proof fn row_has_no_trailing_comma(data: JsonValue, paths: Seq<Seq<Seq<char>>>)
    ensures
        row_spec(data, paths).len() == 0 || row_spec(data, paths).last() != ',',
{
    lemma_trim_end_result(concat_spec(cells_spec(data, paths)), ',');
}

/// A report has one data line per stored document: its text is the header
/// line, then for each document its line and a line break, in order.
pub proof fn report_lines_follow_rows(columns: Seq<Seq<char>>, rows: Seq<JsonValue>, data: JsonValue)
    ensures
        report_spec(columns, rows.push(data)) == report_spec(columns, rows) + row_spec(
            data,
            columns.map_values(|c: Seq<char>| column_path(c)),
        ) + "\r\n"@,
{
    let pv = columns.map_values(|c: Seq<char>| column_path(c));
    assert(rows.push(data).drop_last() =~= rows);
    assert(rows_text_spec(rows.push(data), pv) == rows_text_spec(rows, pv) + row_spec(data, pv)
        + "\r\n"@);
    assert(report_spec(columns, rows.push(data)) =~= report_spec(columns, rows) + row_spec(
        data,
        pv,
    ) + "\r\n"@);
}

/// A column whose path finds nothing, or finds `null`, adds nothing to a line.
pub proof fn missing_value_adds_nothing(data: JsonValue, path: Seq<Seq<char>>)
    requires
        walk_spec(data, path) is None || walk_spec(data, path) == Some(JsonValue::Null),
    ensures
        cell_spec(walk_spec(data, path)) == Seq::<char>::empty(),
{
}

/// A value that is neither missing, `null` nor a string (a number, a boolean,
/// an array or an object) is written as its JSON text with each double quote
/// turned into a single quote, between double quotes, and followed by a comma.
pub proof fn compound_value_cell(v: JsonValue)
    requires
        !(v is Null),
        !(v is String),
    ensures
        ({
            let c = cell_spec(Some(v));
            let t = json_text(v);
            &&& c.len() == t.len() + 3
            &&& c[0] == '"'
            &&& c[c.len() - 2] == '"'
            &&& c[c.len() - 1] == ','
            &&& forall|i: int|
                0 <= i < t.len() ==> c[i + 1] == (if #[trigger] t[i] == '"' {
                    '\''
                } else {
                    t[i]
                })
        }),
{
    let t = json_text(v);
    let m = replace_char_spec(t, '"', '\'');
    let c = cell_spec(Some(v));
    assert(c == seq!['"'] + m + seq!['"', ',']);
    assert forall|i: int| 0 <= i < t.len() implies c[i + 1] == (if #[trigger] t[i] == '"' {
        '\''
    } else {
        t[i]
    }) by {
        assert(c[i + 1] == m[i]);
    }
}

/// Only a missing value or `null` leaves a cell empty; every other value
/// writes something.
pub proof fn empty_cell_only_for_missing(v: Option<JsonValue>)
    ensures
        cell_spec(v).len() == 0 <==> (v is None || v == Some(JsonValue::Null)),
{
}

/// A string is written as its JSON string literal (what serde_json prints for
/// it, quotes and escapes included), followed by a comma.
pub proof fn string_cell_is_json_literal(text: String)
    ensures
        cell_spec(Some(JsonValue::String(text))) == json_quoted(text@) + seq![','],
        cell_spec(Some(JsonValue::String(text))).len() == json_quoted(text@).len() + 1,
{
    assert(json_quoted(text@).push(',') =~= json_quoted(text@) + seq![',']);
}

} // verus!
