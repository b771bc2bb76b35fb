//! Decisions around database queries: which statements a read-only query
//! accepts, how values and result tables are shown, how a table is
//! described, and which error messages mean a corrupt database file.

use vstd::prelude::*;
use vstd::utf8::encode_utf8;
use crate::error::ForgerError;
use crate::text::{
    concat2, concat3, contains_spec, decimal, decimal_string, join_spec, join_strings, owned,
    push_char, push_lit, push_str, starts_with_spec, str_contains, str_starts_with, str_trim, trim_spec,
    views,
};
use crate::theming::boxes::repeat_char;

verus! {

// ---------------------------------------------------------------------------
// Case mapping
// ---------------------------------------------------------------------------

/// `str::to_uppercase` (full Unicode case mapping) of a text.
pub uninterp spec fn upper_text(s: Seq<char>) -> Seq<char>;

/// `str::to_lowercase` (full Unicode case mapping) of a text.
pub uninterp spec fn lower_text(s: Seq<char>) -> Seq<char>;

/// `str::to_uppercase`. Claims only that the result is the named mapping
/// of the text.
#[verifier::external_body]
fn to_upper(s: &str) -> (r: String)
    ensures
        r@ == upper_text(s@),
{
    s.to_uppercase()
}

/// `str::to_lowercase`. Claims only that the result is the named mapping
/// of the text.
#[verifier::external_body]
fn to_lower(s: &str) -> (r: String)
    ensures
        r@ == lower_text(s@),
{
    s.to_lowercase()
}

// ---------------------------------------------------------------------------
// Read-only queries
// ---------------------------------------------------------------------------

/// The statement beginnings a read-only query accepts: SELECT and the
/// PRAGMAs that only inspect.
pub open spec fn safe_prefixes() -> Seq<Seq<char>> {
    seq![
        "SELECT"@,
        "PRAGMA TABLE_INFO"@,
        "PRAGMA DATABASE_LIST"@,
        "PRAGMA INDEX_LIST"@,
        "PRAGMA INDEX_INFO"@,
        "PRAGMA FOREIGN_KEY_LIST"@,
        "PRAGMA TABLE_LIST"@,
    ]
}

/// Whether an upper-cased statement starts with an accepted beginning.
pub open spec fn accepted_upper(u: Seq<char>) -> bool {
    exists|i: int| 0 <= i < safe_prefixes().len() && starts_with_spec(u, #[trigger] safe_prefixes()[i])
}

/// Whether a statement is one a read-only query accepts: its trimmed,
/// upper-cased text starts with an accepted beginning.
pub open spec fn is_read_only_spec(sql: Seq<char>) -> bool {
    accepted_upper(upper_text(trim_spec(sql)))
}

/// The message for a statement a read-only query refuses.
pub open spec fn read_only_message() -> Seq<char> {
    "read_query only allows SELECT and safe PRAGMA statements. Use 'db exec' for modifications."@
}

/// Whether a trimmed, upper-cased statement starts with SELECT or with
/// one of the PRAGMAs that only inspect.
pub fn is_accepted_upper(us: &str) -> (b: bool)
    ensures
        b == accepted_upper(us@),
{
    let ghost ps = safe_prefixes();
    let r = str_starts_with(us, "SELECT") || str_starts_with(us, "PRAGMA TABLE_INFO")
        || str_starts_with(us, "PRAGMA DATABASE_LIST") || str_starts_with(us, "PRAGMA INDEX_LIST")
        || str_starts_with(us, "PRAGMA INDEX_INFO") || str_starts_with(us, "PRAGMA FOREIGN_KEY_LIST")
        || str_starts_with(us, "PRAGMA TABLE_LIST");
    proof {
        if r {
            if starts_with_spec(us@, ps[0]) {} else if starts_with_spec(us@, ps[1]) {} else if starts_with_spec(us@, ps[2]) {
            } else if starts_with_spec(us@, ps[3]) {} else if starts_with_spec(us@, ps[4]) {} else if starts_with_spec(us@, ps[5]) {
            } else {
                assert(starts_with_spec(us@, ps[6]));
            }
        } else {
            assert forall|i: int| 0 <= i < ps.len() implies !starts_with_spec(us@, #[trigger] ps[i]) by {
                if i == 0 {} else if i == 1 {} else if i == 2 {} else if i == 3 {} else if i == 4 {} else if i == 5 {} else {}
            }
        }
    }
    r
}

/// Whether a statement is one a read-only query accepts.
pub fn is_read_only_query(sql: &str) -> (b: bool)
    ensures
        b == is_read_only_spec(sql@),
{
    let t = str_trim(sql);
    let u = to_upper(t.as_str());
    is_accepted_upper(u.as_str())
}

/// A statement that a read-only query accepts begins, once trimmed and
/// upper-cased, with `SELECT` or with `PRAGMA`: nothing that writes.
pub proof fn lemma_accepted_reads_only(sql: Seq<char>)
    requires
        is_read_only_spec(sql),
    ensures
        starts_with_spec(upper_text(trim_spec(sql)), "SELECT"@)
            || starts_with_spec(upper_text(trim_spec(sql)), "PRAGMA"@),
{
    let u = upper_text(trim_spec(sql));
    let ps = safe_prefixes();
    let i = choose|i: int| 0 <= i < ps.len() && starts_with_spec(u, #[trigger] ps[i]);
    reveal_strlit("PRAGMA");
    reveal_strlit("PRAGMA TABLE_INFO");
    reveal_strlit("PRAGMA DATABASE_LIST");
    reveal_strlit("PRAGMA INDEX_LIST");
    reveal_strlit("PRAGMA INDEX_INFO");
    reveal_strlit("PRAGMA FOREIGN_KEY_LIST");
    reveal_strlit("PRAGMA TABLE_LIST");
    if i > 0 {
        let p = ps[i];
        assert(p.subrange(0, 6) =~= "PRAGMA"@);
        assert(u.subrange(0, 6) =~= p.subrange(0, 6));
    }
}

/// Checks a statement before a read-only query runs it: the error that
/// refuses it, if it is not read-only.
pub fn check_read_query(sql: &str) -> (r: Result<(), ForgerError>)
    ensures
        r is Ok <==> is_read_only_spec(sql@),
        r matches Err(e) ==> e.message@ == read_only_message(),
{
    if is_read_only_query(sql) {
        Ok(())
    } else {
        Err(ForgerError::new(owned(
            "read_query only allows SELECT and safe PRAGMA statements. Use 'db exec' for modifications.",
        )))
    }
}

// ---------------------------------------------------------------------------
// Corruption
// ---------------------------------------------------------------------------

/// The phrases of SQLite's messages for a corrupt file.
pub open spec fn corrupt_phrases() -> Seq<Seq<char>> {
    seq!["database disk image is malformed"@, "file is not a database"@, "database is malformed"@]
}

/// Whether a lower-cased message holds a phrase that means the database
/// file is corrupt.
pub open spec fn names_corruption(l: Seq<char>) -> bool {
    exists|i: int| 0 <= i < corrupt_phrases().len() && contains_spec(l, #[trigger] corrupt_phrases()[i])
}

/// Whether an error message (lower-cased) holds a phrase that means the
/// database file is corrupt.
pub open spec fn is_corrupt_spec(message: Seq<char>) -> bool {
    names_corruption(lower_text(message))
}

/// Whether a lower-cased message holds one of SQLite's phrases for a
/// corrupt file.
pub fn names_corruption_lower(ls: &str) -> (b: bool)
    ensures
        b == names_corruption(ls@),
{
    let ghost ps = corrupt_phrases();
    let r = str_contains(ls, "database disk image is malformed") || str_contains(ls, "file is not a database")
        || str_contains(ls, "database is malformed");
    proof {
        if r {
            if contains_spec(ls@, ps[0]) {} else if contains_spec(ls@, ps[1]) {} else {
                assert(contains_spec(ls@, ps[2]));
            }
        } else {
            assert forall|i: int| 0 <= i < ps.len() implies !contains_spec(ls@, #[trigger] ps[i]) by {
                if i == 0 {} else if i == 1 {} else {}
            }
        }
    }
    r
}

/// Whether a database error message means the file is corrupt.
pub fn is_corrupt_database_error_message(message: &str) -> (b: bool)
    ensures
        b == is_corrupt_spec(message@),
{
    let l = to_lower(message);
    names_corruption_lower(l.as_str())
}

// ---------------------------------------------------------------------------
// Values and tables
// ---------------------------------------------------------------------------

/// A value read from a result row. A real number is carried as the text
/// it is shown as.
#[derive(Debug, Clone)]
pub enum SqlValue {
    Null,
    Integer(i64),
    Real(String),
    Text(String),
    Blob,
}

/// The decimal text of a signed integer.
pub open spec fn signed_decimal(i: int) -> Seq<char> {
    if i < 0 { seq!['-'] + decimal((-i) as nat) } else { decimal(i as nat) }
}

/// How a value is shown.
pub open spec fn value_text(v: SqlValue) -> Seq<char> {
    match v {
        SqlValue::Null => "NULL"@,
        SqlValue::Integer(i) => signed_decimal(i as int),
        SqlValue::Real(s) => s@,
        SqlValue::Text(s) => s@,
        SqlValue::Blob => "[BLOB]"@,
    }
}

/// `i64::to_string`.
pub fn i64_string(i: i64) -> (s: String)
    ensures
        s@ == signed_decimal(i as int),
{
    if i >= 0 {
        decimal_string(i as u64)
    } else {
        let m: u64 = if i == i64::MIN { 9223372036854775808u64 } else { (-i) as u64 };
        let mut s = owned("-");
        proof {
            reveal_strlit("-");
        }
        push_str(&mut s, decimal_string(m).as_str());
        s
    }
}

/// How a value is shown.
pub fn format_value(value: &SqlValue) -> (s: String)
    ensures
        s@ == value_text(*value),
{
    match value {
        SqlValue::Null => owned("NULL"),
        SqlValue::Integer(i) => i64_string(*i),
        SqlValue::Real(s) => s.clone(),
        SqlValue::Text(s) => s.clone(),
        SqlValue::Blob => owned("[BLOB]"),
    }
}

/// The length of a text in bytes (what `str::len` gives).
pub open spec fn byte_len(s: Seq<char>) -> nat {
    encode_utf8(s).len()
}

/// The widest entry of a column: its header and the row cells at that
/// column, in bytes.
pub open spec fn column_width(headers: Seq<Seq<char>>, rows: Seq<Seq<Seq<char>>>, i: int) -> nat
    decreases rows.len(),
{
    if rows.len() == 0 {
        byte_len(headers[i])
    } else {
        let w = column_width(headers, rows.drop_last(), i);
        let r = rows.last();
        let c: nat = if i < r.len() { byte_len(r[i]) } else { 0 };
        if c > w { c } else { w }
    }
}

/// A cell padded with spaces to `width` characters.
pub open spec fn padded(s: Seq<char>, width: nat) -> Seq<char> {
    if s.len() >= width { s } else { s + repeat_char(' ', (width - s.len()) as nat) }
}

/// The cells of a line, each padded to its column's width plus 2.
pub open spec fn cells_text(cells: Seq<Seq<char>>, widths: Seq<nat>) -> Seq<char>
    decreases cells.len(),
{
    if cells.len() == 0 {
        Seq::empty()
    } else {
        cells_text(cells.drop_last(), widths) + padded(cells.last(), widths[cells.len() - 1] + 2)
    }
}

/// One line of the table.
pub open spec fn table_line(cells: Seq<Seq<char>>, widths: Seq<nat>) -> Seq<char> {
    cells_text(cells, widths) + seq!['\n']
}

/// Dashes under each column, its width plus 2 each.
pub open spec fn dashes(widths: Seq<nat>) -> Seq<char>
    decreases widths.len(),
{
    if widths.len() == 0 {
        Seq::empty()
    } else {
        dashes(widths.drop_last()) + repeat_char('-', widths.last() + 2)
    }
}

/// The separator line.
pub open spec fn separator_line(widths: Seq<nat>) -> Seq<char> {
    dashes(widths) + seq!['\n']
}

/// The widths of all columns.
pub open spec fn column_widths(headers: Seq<Seq<char>>, rows: Seq<Seq<Seq<char>>>) -> Seq<nat> {
    Seq::new(headers.len(), |i: int| column_width(headers, rows, i))
}

/// The lines of all rows.
pub open spec fn row_lines(rows: Seq<Seq<Seq<char>>>, widths: Seq<nat>) -> Seq<char>
    decreases rows.len(),
{
    if rows.len() == 0 {
        Seq::empty()
    } else {
        row_lines(rows.drop_last(), widths) + table_line(rows.last(), widths)
    }
}

/// A result shown as a table: a header line, a separator and one line per
/// row; "(no rows)" when there is no row.
pub open spec fn table_spec(headers: Seq<Seq<char>>, rows: Seq<Seq<Seq<char>>>) -> Seq<char> {
    if rows.len() == 0 {
        "(no rows)\n"@
    } else {
        let w = column_widths(headers, rows);
        table_line(headers, w) + separator_line(w) + row_lines(rows, w)
    }
}

/// The rows as plain values.
pub open spec fn rows_view(rows: Seq<Vec<String>>) -> Seq<Seq<Seq<char>>> {
    rows.map_values(|r: Vec<String>| views(r@))
}

/// No text of a result is longer than any allocation can be.
pub open spec fn table_fits(headers: Seq<Seq<char>>, rows: Seq<Seq<Seq<char>>>) -> bool {
    &&& forall|i: int| 0 <= i < headers.len() ==> byte_len(#[trigger] headers[i]) <= isize::MAX
    &&& forall|j: int, i: int| 0 <= j < rows.len() && 0 <= i < rows[j].len() ==> byte_len(#[trigger] rows[j][i]) <= isize::MAX
    &&& forall|j: int| 0 <= j < rows.len() ==> (#[trigger] rows[j]).len() <= headers.len()
}

/// The byte length of a string.
fn str_byte_len(s: &String) -> (n: usize)
    requires
        byte_len(s@) <= isize::MAX,
    ensures
        n == byte_len(s@),
{
    s.as_str().len()
}

/// The width of a column.
fn column_width_exec(headers: &Vec<String>, rows: &Vec<Vec<String>>, i: usize) -> (w: usize)
    requires
        i < headers@.len(),
        table_fits(views(headers@), rows_view(rows@)),
    ensures
        w == column_width(views(headers@), rows_view(rows@), i as int),
        w <= isize::MAX,
{
    let ghost hv = views(headers@);
    let ghost rv = rows_view(rows@);
    assert(hv[i as int] == headers@[i as int]@);
    assert(byte_len(hv[i as int]) <= isize::MAX);
    let mut w = str_byte_len(&headers[i]);
    let mut j: usize = 0;
    while j < rows.len()
        invariant
            j <= rows@.len(),
            i < headers@.len(),
            hv == views(headers@),
            rv == rows_view(rows@),
            table_fits(hv, rv),
            w == column_width(hv, rv.subrange(0, j as int), i as int),
            w <= isize::MAX,
        decreases rows.len() - j,
    {
        let ghost prev = rv.subrange(0, j as int);
        let ghost cur = rv.subrange(0, j + 1);
        assert(cur.drop_last() =~= prev);
        assert(cur.last() == views(rows@[j as int]@));
        let c: usize = if i < rows[j].len() {
            assert(rv[j as int][i as int] == rows@[j as int]@[i as int]@);
            assert(byte_len(rv[j as int][i as int]) <= isize::MAX);
            str_byte_len(&rows[j][i])
        } else {
            0
        };
        if c > w {
            w = c;
        }
        j = j + 1;
    }
    assert(rv.subrange(0, rows@.len() as int) =~= rv);
    w
}

/// Appends a cell padded with spaces to `width` characters.
fn push_padded(out: &mut String, s: &String, width: usize)
    ensures
        final(out)@ == old(out)@ + padded(s@, width as nat),
{
    push_str(out, s.as_str());
    let n = crate::text::to_chars(s.as_str()).len();
    if n < width {
        let pad = crate::theming::boxes::repeat_str(' ', width - n);
        push_str(out, pad.as_str());
    }
}

/// Appends one line of the table.
fn push_table_line(out: &mut String, cells: &Vec<String>, widths: &Vec<usize>)
    requires
        cells@.len() <= widths@.len(),
        forall|k: int| 0 <= k < widths@.len() ==> #[trigger] widths@[k] <= isize::MAX,
    ensures
        final(out)@ == old(out)@ + table_line(views(cells@), widths@.map_values(|w: usize| w as nat)),
{
    let ghost wv = widths@.map_values(|w: usize| w as nat);
    let ghost cv = views(cells@);
    let mut k: usize = 0;
    while k < cells.len()
        invariant
            k <= cells@.len(),
            cells@.len() <= widths@.len(),
            wv == widths@.map_values(|w: usize| w as nat),
            cv == views(cells@),
            forall|m: int| 0 <= m < widths@.len() ==> #[trigger] widths@[m] <= isize::MAX,
            out@ == old(out)@ + cells_text(cv.subrange(0, k as int), wv),
        decreases cells.len() - k,
    {
        let ghost prev = cv.subrange(0, k as int);
        let ghost cur = cv.subrange(0, k + 1);
        assert(cur.drop_last() =~= prev);
        assert(widths@[k as int] <= isize::MAX);
        push_padded(out, &cells[k], widths[k] + 2);
        k = k + 1;
    }
    assert(cv.subrange(0, cells@.len() as int) =~= cv);
    push_char(out, '\n');
}

/// Shows a query result as a table: the headers, a separator, then one
/// line per row, every cell padded to its column's widest entry (measured
/// in bytes) plus 2; "(no rows)" when there is no row.
pub fn format_table(headers: &Vec<String>, rows: &Vec<Vec<String>>) -> (s: String)
    requires
        table_fits(views(headers@), rows_view(rows@)),
    ensures
        s@ == table_spec(views(headers@), rows_view(rows@)),
{
    if rows.len() == 0 {
        return owned("(no rows)\n");
    }
    let ghost hv = views(headers@);
    let ghost rv = rows_view(rows@);
    let mut widths: Vec<usize> = Vec::new();
    let mut i: usize = 0;
    while i < headers.len()
        invariant
            i <= headers@.len(),
            hv == views(headers@),
            rv == rows_view(rows@),
            table_fits(hv, rv),
            widths@.len() == i,
            forall|k: int| 0 <= k < i ==> #[trigger] widths@[k] == column_width(hv, rv, k) && widths@[k] <= isize::MAX,
        decreases headers.len() - i,
    {
        let w = column_width_exec(headers, rows, i);
        widths.push(w);
        i = i + 1;
    }
    let ghost wv = widths@.map_values(|w: usize| w as nat);
    assert(wv =~= column_widths(hv, rv));
    let mut out = String::new();
    push_table_line(&mut out, headers, &widths);
    let mut k: usize = 0;
    while k < widths.len()
        invariant
            k <= widths@.len(),
            wv == widths@.map_values(|w: usize| w as nat),
            forall|m: int| 0 <= m < widths@.len() ==> #[trigger] widths@[m] <= isize::MAX,
            out@ == table_line(hv, wv) + dashes(wv.subrange(0, k as int)),
        decreases widths.len() - k,
    {
        let ghost prev = wv.subrange(0, k as int);
        let ghost cur = wv.subrange(0, k + 1);
        assert(cur.drop_last() =~= prev);
        let pad = crate::theming::boxes::repeat_str('-', widths[k] + 2);
        push_str(&mut out, pad.as_str());
        k = k + 1;
    }
    assert(wv.subrange(0, widths@.len() as int) =~= wv);
    push_char(&mut out, '\n');
    let ghost head = out@;
    assert(head == table_line(hv, wv) + separator_line(wv));
    let mut j: usize = 0;
    while j < rows.len()
        invariant
            j <= rows@.len(),
            rv == rows_view(rows@),
            hv == views(headers@),
            table_fits(hv, rv),
            widths@.len() == headers@.len(),
            wv == widths@.map_values(|w: usize| w as nat),
            forall|m: int| 0 <= m < widths@.len() ==> #[trigger] widths@[m] <= isize::MAX,
            out@ == head + row_lines(rv.subrange(0, j as int), wv),
        decreases rows.len() - j,
    {
        let ghost prev = rv.subrange(0, j as int);
        let ghost cur = rv.subrange(0, j + 1);
        assert(cur.drop_last() =~= prev);
        assert(rv[j as int].len() <= hv.len());
        push_table_line(&mut out, &rows[j], &widths);
        j = j + 1;
    }
    assert(rv.subrange(0, rows@.len() as int) =~= rv);
    out
}

/// A column of a table: name, type, not-null, primary key.
pub open spec fn column_line(c: (Seq<char>, Seq<char>, bool, bool)) -> Seq<char> {
    let flags: Seq<Seq<char>> = (if c.3 { seq!["PRIMARY KEY"@] } else { seq![] }) + (if c.2 {
        seq!["NOT NULL"@]
    } else {
        seq![]
    });
    "  - "@ + c.0 + ": "@ + c.1 + (if flags.len() == 0 { Seq::empty() } else { " ["@ + join_spec(flags, ", "@) + "]"@ })
        + "\n"@
}

/// The lines of all columns.
pub open spec fn column_lines(cols: Seq<(Seq<char>, Seq<char>, bool, bool)>) -> Seq<char>
    decreases cols.len(),
{
    if cols.len() == 0 { Seq::empty() } else { column_lines(cols.drop_last()) + column_line(cols.last()) }
}

/// A table's description from its columns, or the error for a table
/// without columns (one that does not exist).
pub open spec fn describe_spec(name: Seq<char>, cols: Seq<(Seq<char>, Seq<char>, bool, bool)>) -> Result<Seq<char>, Seq<char>> {
    if cols.len() == 0 {
        Err("Table '"@ + name + "' not found"@)
    } else {
        Ok("Table: "@ + name + "\n"@ + "Columns:\n"@ + column_lines(cols))
    }
}

/// Columns as plain values.
pub open spec fn columns_view(cols: Seq<(String, String, bool, bool)>) -> Seq<(Seq<char>, Seq<char>, bool, bool)> {
    cols.map_values(|c: (String, String, bool, bool)| (c.0@, c.1@, c.2, c.3))
}

/// Describes a table from its columns (name, type, not-null, primary key).
pub fn describe_table(table_name: &str, columns: &Vec<(String, String, bool, bool)>) -> (r: Result<String, ForgerError>)
    ensures
        match (r, describe_spec(table_name@, columns_view(columns@))) {
            (Ok(s), Ok(t)) => s@ == t,
            (Err(e), Err(m)) => e.message@ == m,
            _ => false,
        },
{
    if columns.len() == 0 {
        return Err(ForgerError::new(concat3("Table '", table_name, "' not found")));
    }
    let ghost cv = columns_view(columns@);
    let mut out = concat3("Table: ", table_name, "\n");
    push_str(&mut out, "Columns:\n");
    let ghost head = out@;
    let mut i: usize = 0;
    while i < columns.len()
        invariant
            i <= columns@.len(),
            cv == columns_view(columns@),
            out@ == head + column_lines(cv.subrange(0, i as int)),
        decreases columns.len() - i,
    {
        let ghost prev = cv.subrange(0, i as int);
        let ghost cur = cv.subrange(0, i + 1);
        assert(cur.drop_last() =~= prev);
        let c = &columns[i];
        let mut flags: Vec<String> = Vec::new();
        if c.3 {
            push_lit(&mut flags, "PRIMARY KEY");
        }
        if c.2 {
            push_lit(&mut flags, "NOT NULL");
        }
        let ghost fl = views(flags@);
        assert(fl =~= (if c.3 { seq!["PRIMARY KEY"@] } else { Seq::<Seq<char>>::empty() }) + (if c.2 {
            seq!["NOT NULL"@]
        } else {
            Seq::<Seq<char>>::empty()
        }));
        let mut line = concat3("  - ", c.0.as_str(), ": ");
        push_str(&mut line, c.1.as_str());
        if flags.len() > 0 {
            push_str(&mut line, " [");
            push_str(&mut line, join_strings(&flags, ", ").as_str());
            push_str(&mut line, "]");
        }
        push_str(&mut line, "\n");
        push_str(&mut out, line.as_str());
        i = i + 1;
    }
    assert(cv.subrange(0, columns@.len() as int) =~= cv);
    Ok(out)
}

/// A column's line names the column and its type, then marks it
/// `[PRIMARY KEY]` when its primary-key flag (the fourth field) is set and
/// `[NOT NULL]` when its not-null flag (the third field) is set, both in
/// one bracket when both are.
pub proof fn lemma_column_line_flags(c: (Seq<char>, Seq<char>, bool, bool))
    ensures
        column_line(c) == "  - "@ + c.0 + ": "@ + c.1 + (if c.3 && c.2 {
            " [PRIMARY KEY, NOT NULL]"@
        } else if c.3 {
            " [PRIMARY KEY]"@
        } else if c.2 {
            " [NOT NULL]"@
        } else {
            ""@
        }) + "\n"@,
{
    reveal_strlit(" [PRIMARY KEY, NOT NULL]");
    reveal_strlit(" [PRIMARY KEY]");
    reveal_strlit(" [NOT NULL]");
    reveal_strlit("");
    reveal_strlit(" [");
    reveal_strlit("]");
    reveal_strlit(", ");
    reveal_strlit("PRIMARY KEY");
    reveal_strlit("NOT NULL");
    let flags: Seq<Seq<char>> = (if c.3 { seq!["PRIMARY KEY"@] } else { seq![] }) + (if c.2 {
        seq!["NOT NULL"@]
    } else {
        seq![]
    });
    if c.3 && c.2 {
        assert(flags =~= seq!["PRIMARY KEY"@, "NOT NULL"@]);
        assert(flags.drop_last() =~= seq!["PRIMARY KEY"@]);
        assert(join_spec(flags.drop_last(), ", "@) == "PRIMARY KEY"@);
        assert(join_spec(flags, ", "@) == "PRIMARY KEY"@ + ", "@ + "NOT NULL"@);
        assert(" ["@ + join_spec(flags, ", "@) + "]"@ =~= " [PRIMARY KEY, NOT NULL]"@);
    } else if c.3 {
        assert(flags =~= seq!["PRIMARY KEY"@]);
        assert(" ["@ + join_spec(flags, ", "@) + "]"@ =~= " [PRIMARY KEY]"@);
    } else if c.2 {
        assert(flags =~= seq!["NOT NULL"@]);
        assert(" ["@ + join_spec(flags, ", "@) + "]"@ =~= " [NOT NULL]"@);
    } else {
        assert(flags.len() == 0);
    }
    assert(column_line(c) =~= "  - "@ + c.0 + ": "@ + c.1 + (if c.3 && c.2 {
        " [PRIMARY KEY, NOT NULL]"@
    } else if c.3 {
        " [PRIMARY KEY]"@
    } else if c.2 {
        " [NOT NULL]"@
    } else {
        ""@
    }) + "\n"@);
}

/// The column lines begin with those of the first columns, in order.
proof fn lemma_column_lines_prefix(cols: Seq<(Seq<char>, Seq<char>, bool, bool)>, i: int)
    requires
        0 <= i < cols.len(),
    ensures
        ({
            let pre = column_lines(cols.subrange(0, i));
            let l = column_line(cols[i]);
            &&& pre.len() + l.len() <= column_lines(cols).len()
            &&& column_lines(cols).subrange(0, (pre.len() + l.len()) as int) == pre + l
        }),
    decreases cols.len(),
{
    let pre = column_lines(cols.subrange(0, i));
    let l = column_line(cols[i]);
    let d = cols.drop_last();
    assert(column_lines(cols) == column_lines(d) + column_line(cols.last()));
    if i == cols.len() - 1 {
        assert(d =~= cols.subrange(0, i));
        assert(column_lines(cols).subrange(0, (pre.len() + l.len()) as int) =~= pre + l);
    } else {
        lemma_column_lines_prefix(d, i);
        assert(d.subrange(0, i) =~= cols.subrange(0, i));
        assert(d[i] == cols[i]);
        assert(column_lines(cols).subrange(0, (pre.len() + l.len()) as int) =~= column_lines(d).subrange(0, (pre.len() + l.len()) as int));
    }
}

/// A description exists exactly for a table with columns; it starts with
/// the table's name and holds the line of every column, each marked by
/// its own flags.
pub proof fn lemma_describe_lists_columns(name: Seq<char>, cols: Seq<(Seq<char>, Seq<char>, bool, bool)>)
    ensures
        describe_spec(name, cols) is Err <==> cols.len() == 0,
        describe_spec(name, cols) matches Ok(d) ==> starts_with_spec(d, "Table: "@ + name + "\nColumns:\n"@)
            && forall|i: int| 0 <= i < cols.len() ==> contains_spec(d, #[trigger] column_line(cols[i])),
{
    if cols.len() > 0 {
        reveal_strlit("Table: ");
        reveal_strlit("\n");
        reveal_strlit("Columns:\n");
        reveal_strlit("\nColumns:\n");
        let h = "Table: "@ + name + "\nColumns:\n"@;
        let d = describe_spec(name, cols)->Ok_0;
        assert(d =~= h + column_lines(cols));
        assert(d.subrange(0, h.len() as int) =~= h);
        assert forall|i: int| 0 <= i < cols.len() implies contains_spec(d, #[trigger] column_line(cols[i])) by {
            lemma_column_lines_prefix(cols, i);
            let pre = column_lines(cols.subrange(0, i));
            let l = column_line(cols[i]);
            let k: int = (h.len() + pre.len()) as int;
            assert forall|t: int| 0 <= t < l.len() implies #[trigger] d[k + t] == l[t] by {
                assert(d[k + t] == column_lines(cols)[pre.len() + t]);
                assert(column_lines(cols).subrange(0, (pre.len() + l.len()) as int)[pre.len() + t] == (pre + l)[pre.len() + t]);
            }
            assert(crate::text::matches_at(d, l, k));
        }
    }
}

} // verus!
