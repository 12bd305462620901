//! The relational writer: creates tables and indexes from the schema model
//! and bulk-loads parsed rows in batches, through a small set of trusted
//! shims over rusqlite.

use vstd::prelude::*;

use crate::json::spec_parse_json;
use crate::record::{
    parse_junction_records, parse_record, rows_view, spec_parse_junction, ParseError, ParsedRow,
    SqlValue,
};
use crate::schema_gen::{generate_create_table, generate_indexes, get_column_names};
use crate::schema_types::{names_view, TableSchema};
use crate::ui::Ui;

verus! {

/// rusqlite's database connection, opaque to contracts.
#[verifier::external_type_specification]
#[verifier::external_body]
pub struct ExConnection(rusqlite::Connection);

/// rusqlite's prepared statement, opaque to contracts.
#[verifier::external_type_specification]
#[verifier::external_body]
pub struct ExStatement<'conn>(rusqlite::Statement<'conn>);

/// rusqlite's error type, opaque to contracts; it is mapped to
/// [`WriteError`] at the trust boundary's callers.
#[verifier::external_type_specification]
#[verifier::external_body]
pub struct ExSqliteError(rusqlite::Error);

/// Relies on rusqlite::Connection::open: opens (creating if absent) the
/// database file at `path`.
#[verifier::external_body]
fn open_connection(path: &str) -> Result<rusqlite::Connection, rusqlite::Error> {
    rusqlite::Connection::open(path)
}

/// Relies on rusqlite::Connection::execute_batch: runs each statement of
/// `sql` in order.
#[verifier::external_body]
fn conn_execute_batch(conn: &rusqlite::Connection, sql: &str) -> Result<(), rusqlite::Error> {
    conn.execute_batch(sql)
}

/// Relies on rusqlite::Connection::execute: runs the single statement `sql`
/// without parameters.
#[verifier::external_body]
fn conn_execute(conn: &rusqlite::Connection, sql: &str) -> Result<usize, rusqlite::Error> {
    conn.execute(sql, [])
}

/// Relies on rusqlite::Connection::prepare: compiles `sql` into a statement
/// against the connection.
#[verifier::external_body]
fn conn_prepare<'conn>(conn: &'conn rusqlite::Connection, sql: &str) -> Result<
    rusqlite::Statement<'conn>,
    rusqlite::Error,
> {
    conn.prepare(sql)
}

/// Relies on rusqlite::Statement::raw_execute: runs the prepared statement
/// with the parameters bound so far.
#[verifier::external_body]
fn stmt_raw_execute(stmt: &mut rusqlite::Statement<'_>) -> Result<usize, rusqlite::Error> {
    stmt.raw_execute()
}

impl SqlValue {
    /// Relies on rusqlite::Statement::raw_bind_parameter: binds this value
    /// at the one-based index. `Real` text is bound as text; the column's
    /// REAL affinity stores it as a number.
    #[verifier::external_body]
    pub fn bind_to(&self, idx: usize, stmt: &mut rusqlite::Statement<'_>) -> Result<
        (),
        rusqlite::Error,
    > {
        match self {
            SqlValue::Null => stmt.raw_bind_parameter(idx, rusqlite::types::Null),
            SqlValue::Integer(i) => stmt.raw_bind_parameter(idx, i),
            SqlValue::Real(s) => stmt.raw_bind_parameter(idx, s.as_str()),
            SqlValue::Text(s) => stmt.raw_bind_parameter(idx, s.as_str()),
        }
    }
}

/// Relies on the `ToString` impl that rusqlite::Error's `Display` provides.
#[verifier::external_body]
fn sqlite_error_text(e: &rusqlite::Error) -> String {
    e.to_string()
}

/// Why a write failed.
#[derive(Debug)]
pub enum WriteError {
    /// A source line could not be parsed.
    Parse(ParseError),
    /// The storage engine refused an operation.
    Storage(String),
}

impl WriteError {
    /// A short description of the error.
    pub fn message(&self) -> (m: String)
        ensures
            self matches WriteError::Storage(s) ==> m@ == s@,
    {
        match self {
            WriteError::Parse(e) => e.message(),
            WriteError::Storage(s) => s.clone(),
        }
    }
}

fn storage_error(context: &str, e: &rusqlite::Error) -> (r: WriteError)
    ensures
        r matches WriteError::Storage(_),
{
    let mut msg = context.to_owned();
    msg.append(": ");
    msg.append(sqlite_error_text(e).as_str());
    WriteError::Storage(msg)
}

/// Whether every character of the line is whitespace.
pub open spec fn spec_is_blank(s: Seq<char>) -> bool {
    forall|i: int| 0 <= i < s.len() ==> is_ws_char(#[trigger] s[i])
}

/// The characters with the Unicode White_Space property, as `str::trim`
/// skips them.
pub open spec fn is_ws_char(c: char) -> bool {
    ||| c == '\t' || c == '\n' || c == '\u{B}' || c == '\u{C}' || c == '\r' || c == ' '
    ||| c == '\u{85}' || c == '\u{A0}' || c == '\u{1680}'
    ||| c == '\u{2000}' || c == '\u{2001}' || c == '\u{2002}' || c == '\u{2003}' || c
        == '\u{2004}' || c == '\u{2005}' || c == '\u{2006}' || c == '\u{2007}' || c
        == '\u{2008}' || c == '\u{2009}' || c == '\u{200A}'
    ||| c == '\u{2028}' || c == '\u{2029}' || c == '\u{202F}' || c == '\u{205F}' || c
        == '\u{3000}'
}

fn ws_char(c: char) -> (r: bool)
    ensures
        r == is_ws_char(c),
{
    c == '\t' || c == '\n' || c == '\u{B}' || c == '\u{C}' || c == '\r' || c == ' ' || c
        == '\u{85}' || c == '\u{A0}' || c == '\u{1680}' || c == '\u{2000}' || c == '\u{2001}'
        || c == '\u{2002}' || c == '\u{2003}' || c == '\u{2004}' || c == '\u{2005}' || c
        == '\u{2006}' || c == '\u{2007}' || c == '\u{2008}' || c == '\u{2009}' || c
        == '\u{200A}' || c == '\u{2028}' || c == '\u{2029}' || c == '\u{202F}' || c
        == '\u{205F}' || c == '\u{3000}'
}

fn is_blank(s: &str) -> (r: bool)
    ensures
        r == spec_is_blank(s@),
{
    let n = s.unicode_len();
    let mut k: usize = 0;
    while k < n
        invariant
            n == s@.len(),
            k <= n,
            forall|i: int| 0 <= i < k ==> is_ws_char(#[trigger] s@[i]),
        decreases n - k,
    {
        if !ws_char(s.get_char(k)) {
            return false;
        }
        k += 1;
    }
    true
}

/// The rows one line contributes: zero for a blank line; `None` when the
/// line cannot be parsed.
pub open spec fn spec_line_count(schema: TableSchema, line: Seq<char>) -> Option<int> {
    if spec_is_blank(line) {
        Some(0int)
    } else {
        match spec_parse_json(line) {
            Option::None => None,
            Option::Some(jv) => match schema.array_source {
                Option::Some(src) => match spec_parse_junction(src, schema.columns@, jv) {
                    Option::None => None,
                    Option::Some(rs) => Some(rs.len() as int),
                },
                Option::None => Some(1int),
            },
        }
    }
}

/// The total row count of an import: the sum of every line's contribution,
/// or `None` when any line fails.
pub open spec fn spec_import_count(schema: TableSchema, lines: Seq<Seq<char>>) -> Option<int>
    decreases lines.len(),
{
    if lines.len() == 0 {
        Some(0int)
    } else {
        match (spec_line_count(schema, lines[0]), spec_import_count(
            schema,
            lines.drop_first(),
        )) {
            (Option::Some(a), Option::Some(b)) => Some(a + b),
            _ => None,
        }
    }
}

/// Two runs of an import over the same table and the same lines agree on
/// the row count: the count is a function of the schema and the lines
/// alone, which is what makes a repeated conversion of identical input
/// reproduce its per-table counts.
pub proof fn lemma_import_count_deterministic(
    schema: TableSchema,
    lines: Seq<Seq<char>>,
    c1: int,
    c2: int,
)
    requires
        spec_import_count(schema, lines) == Some(c1),
        spec_import_count(schema, lines) == Some(c2),
    ensures
        c1 == c2,
{
}

/// Column names joined with a comma and a space.
pub open spec fn spec_join_names(items: Seq<Seq<char>>) -> Seq<char>
    decreases items.len(),
{
    if items.len() == 0 {
        Seq::empty()
    } else if items.len() == 1 {
        items[0]
    } else {
        spec_join_names(items.drop_last()) + ", "@ + items.last()
    }
}

/// `n` statement parameters, joined with a comma and a space.
pub open spec fn spec_placeholders(n: int) -> Seq<char>
    decreases n,
{
    if n <= 0 {
        Seq::empty()
    } else if n == 1 {
        "?"@
    } else {
        spec_placeholders(n - 1) + ", ?"@
    }
}

/// The parameterised INSERT statement for a table with the given physical
/// column names.
pub open spec fn spec_insert_sql(name: Seq<char>, cols: Seq<Seq<char>>) -> Seq<char> {
    "INSERT INTO "@ + name + " ("@ + spec_join_names(cols) + ") VALUES ("@ + spec_placeholders(
        cols.len() as int,
    ) + ")"@
}

/// Builds the INSERT statement for a table.
fn build_insert_sql(name: &String, columns: &Vec<String>) -> (sql: String)
    ensures
        sql@ == spec_insert_sql(name@, names_view(columns@)),
{
    let ghost cv = names_view(columns@);
    let mut sql = "INSERT INTO ".to_owned();
    sql.append(name.as_str());
    sql.append(" (");
    let ghost head = "INSERT INTO "@ + name@ + " ("@;
    proof {
        assert(sql@ =~= head);
        assert(cv.take(0) =~= Seq::<Seq<char>>::empty());
    }
    let mut c: usize = 0;
    while c < columns.len()
        invariant
            cv == names_view(columns@),
            cv.len() == columns@.len(),
            forall|i: int| 0 <= i < columns@.len() ==> (#[trigger] cv[i]) == columns@[i]@,
            head == "INSERT INTO "@ + name@ + " ("@,
            c <= columns@.len(),
            sql@ == head + spec_join_names(cv.take(c as int)),
        decreases columns@.len() - c,
    {
        if c > 0 {
            sql.append(", ");
        }
        sql.append(columns[c].as_str());
        proof {
            assert(cv.take(c as int + 1).drop_last() =~= cv.take(c as int));
            assert(cv.take(c as int + 1).last() == cv[c as int]);
            if c == 0 {
                assert(sql@ =~= head + spec_join_names(cv.take(1)));
            } else {
                assert(sql@ =~= head + (spec_join_names(cv.take(c as int)) + ", "@
                    + cv[c as int]));
            }
        }
        c += 1;
    }
    sql.append(") VALUES (");
    let ghost mid = head + spec_join_names(cv) + ") VALUES ("@;
    proof {
        assert(cv.take(columns@.len() as int) =~= cv);
        assert(sql@ =~= mid);
    }
    let mut c2: usize = 0;
    while c2 < columns.len()
        invariant
            cv == names_view(columns@),
            cv.len() == columns@.len(),
            mid == head + spec_join_names(cv) + ") VALUES ("@,
            c2 <= columns@.len(),
            sql@ == mid + spec_placeholders(c2 as int),
        decreases columns@.len() - c2,
    {
        if c2 > 0 {
            sql.append(", ?");
            proof {
                assert(sql@ =~= mid + (spec_placeholders(c2 as int) + ", ?"@));
            }
        } else {
            sql.append("?");
            proof {
                assert(sql@ =~= mid + "?"@);
            }
        }
        c2 += 1;
    }
    sql.append(")");
    proof {
        assert(sql@ =~= spec_insert_sql(name@, cv));
    }
    sql
}

/// The batched relational writer over one exclusive connection.
pub struct SqliteWriter {
    pub conn: rusqlite::Connection,
}

impl SqliteWriter {
    /// Opens the database at `path` and prepares it for bulk loading:
    /// foreign-key enforcement off until [`SqliteWriter::finalize`],
    /// write-ahead logging, relaxed synchronisation and a large cache.
    /// Callers remove a pre-existing file first. Every failure is a
    /// storage-engine failure.
    pub fn new(db_path: &str) -> (r: Result<SqliteWriter, WriteError>)
        ensures
            r matches Err(e) ==> e matches WriteError::Storage(_),
    {
        let conn = match open_connection(db_path) {
            Ok(c) => c,
            Err(e) => {
                return Err(storage_error("Failed to create database", &e));
            },
        };
        match conn_execute_batch(
            &conn,
            "PRAGMA foreign_keys = OFF;\n PRAGMA journal_mode = WAL;\n PRAGMA synchronous = NORMAL;\n PRAGMA cache_size = -64000;",
        ) {
            Ok(_) => {},
            Err(e) => {
                return Err(storage_error("Failed to configure database", &e));
            },
        }
        Ok(SqliteWriter { conn })
    }

    /// Creates every table and its indexes, in the given order: the
    /// statements handed to the storage engine are exactly
    /// [`generate_create_table`] and [`generate_indexes`] of each schema.
    /// Fails only when the engine refuses a statement, naming the table.
    pub fn create_tables<U: Ui>(&self, schemas: &Vec<TableSchema>, ui: &mut U) -> (r: Result<
        (),
        WriteError,
    >)
        ensures
            r matches Err(e) ==> e matches WriteError::Storage(_),
    {
        let mut msg = "Creating ".to_owned();
        msg.append(crate::numfmt::u64_to_dec(schemas.len() as u64).as_str());
        msg.append(" tables...");
        ui.log(msg.as_str());

        let mut i: usize = 0;
        while i < schemas.len()
            decreases schemas@.len() - i,
        {
            let schema = &schemas[i];
            let sql = generate_create_table(schema);
            match conn_execute(&self.conn, sql.as_str()) {
                Ok(_) => {},
                Err(e) => {
                    let mut ctx = "Failed to create table: ".to_owned();
                    ctx.append(schema.name.as_str());
                    return Err(storage_error(ctx.as_str(), &e));
                },
            }
            let indexes = generate_indexes(schema);
            let mut x: usize = 0;
            while x < indexes.len()
                decreases indexes@.len() - x,
            {
                match conn_execute(&self.conn, indexes[x].as_str()) {
                    Ok(_) => {},
                    Err(e) => {
                        let mut ctx = "Failed to create index for: ".to_owned();
                        ctx.append(schema.name.as_str());
                        return Err(storage_error(ctx.as_str(), &e));
                    },
                }
                x += 1;
            }
            ui.set_progress((i + 1) as u64, schemas.len() as u64, "Creating tables");
            i += 1;
        }
        Ok(())
    }

    /// Imports the already-read lines of one table's source file: blank
    /// lines are skipped, each other line is parsed by the table's kind, and
    /// the rows are inserted in batches inside one transaction, through the
    /// statement [`spec_insert_sql`] describes. On success the returned
    /// count is exactly the number of rows the lines parse to; a parse
    /// failure is reported only for lines that cannot be parsed.
    pub fn import_lines<U: Ui>(
        &mut self,
        schema: &TableSchema,
        lines: &Vec<String>,
        line_count: u64,
        ui: &mut U,
    ) -> (r: Result<u64, WriteError>)
        ensures
            r matches Ok(count) ==> spec_import_count(*schema, names_view(lines@)) == Some(
                count as int,
            ),
            match r {
                Err(WriteError::Parse(_)) => spec_import_count(
                    *schema,
                    names_view(lines@),
                ) is None,
                _ => true,
            },
    {
        let ghost lv = names_view(lines@);
        let columns = get_column_names(schema);
        let insert_sql = build_insert_sql(&schema.name, &columns);

        match conn_execute(&self.conn, "BEGIN") {
            Ok(_) => {},
            Err(e) => {
                return Err(storage_error("Failed to begin transaction", &e));
            },
        }

        let is_junction = schema.array_source.is_some();
        let mut count: u64 = 0;
        let mut batch: Vec<ParsedRow> = Vec::new();
        let mut k: usize = 0;
        proof {
            assert(lv.skip(0) =~= lv);
        }
        while k < lines.len()
            invariant
                lv == names_view(lines@),
                lv.len() == lines@.len(),
                forall|i: int| 0 <= i < lines@.len() ==> (#[trigger] lv[i]) == lines@[i]@,
                is_junction == (schema.array_source is Some),
                k <= lines@.len(),
                match spec_import_count(*schema, lv.skip(k as int)) {
                    Option::Some(b) => spec_import_count(*schema, lv) == Some(
                        count as int + batch@.len() + b,
                    ),
                    Option::None => spec_import_count(*schema, lv) is None,
                },
            decreases lines@.len() - k,
        {
            let line = &lines[k];
            proof {
                assert(lv.skip(k as int)[0] == lv[k as int]);
                assert(lv.skip(k as int).drop_first() =~= lv.skip(k as int + 1));
            }
            if !is_blank(line.as_str()) {
                if is_junction {
                    let rows = match parse_junction_records(line.as_str(), schema) {
                        Ok(rows) => rows,
                        Err(e) => {
                            proof {
                                assert(line@ == lv[k as int]);
                                assert(spec_line_count(*schema, lv[k as int]) is None);
                                assert(spec_import_count(*schema, lv.skip(k as int)) is None);
                            }
                            return Err(WriteError::Parse(e));
                        },
                    };
                    let ghost base = count as int + batch@.len();
                    let mut x: usize = 0;
                    while x < rows.len()
                        invariant
                            x <= rows@.len(),
                            count as int + batch@.len() == base + x,
                            count <= u64::MAX,
                        decreases rows@.len() - x,
                    {
                        let row = rows[x].clone_row();
                        batch.push(row);
                        if batch.len() >= 1000 {
                            match insert_batch(&self.conn, insert_sql.as_str(), &columns, &batch) {
                                Ok(_) => {},
                                Err(e) => {
                                    return Err(e);
                                },
                            }
                            count = match count.checked_add(batch.len() as u64) {
                                Some(n) => n,
                                None => {
                                    return Err(
                                        WriteError::Storage("Row count overflow".to_owned()),
                                    );
                                },
                            };
                            ui.set_progress(count, line_count, schema.name.as_str());
                            batch.clear();
                        }
                        x += 1;
                    }
                    proof {
                        assert(count as int + batch@.len() == base + rows_view(rows@).len());
                    }
                } else {
                    let row = match parse_record(line.as_str(), schema) {
                        Ok(row) => row,
                        Err(e) => {
                            proof {
                                assert(line@ == lv[k as int]);
                                assert(spec_line_count(*schema, lv[k as int]) is None);
                                assert(spec_import_count(*schema, lv.skip(k as int)) is None);
                            }
                            return Err(WriteError::Parse(e));
                        },
                    };
                    batch.push(row);
                    if batch.len() >= 1000 {
                        match insert_batch(&self.conn, insert_sql.as_str(), &columns, &batch) {
                            Ok(_) => {},
                            Err(e) => {
                                return Err(e);
                            },
                        }
                        count = match count.checked_add(batch.len() as u64) {
                            Some(n) => n,
                            None => {
                                return Err(WriteError::Storage("Row count overflow".to_owned()));
                            },
                        };
                        ui.set_progress(count, line_count, schema.name.as_str());
                        batch.clear();
                    }
                }
            }
            k += 1;
        }
        if batch.len() > 0 {
            match insert_batch(&self.conn, insert_sql.as_str(), &columns, &batch) {
                Ok(_) => {},
                Err(e) => {
                    return Err(e);
                },
            }
            count = match count.checked_add(batch.len() as u64) {
                Some(n) => n,
                None => {
                    return Err(WriteError::Storage("Row count overflow".to_owned()));
                },
            };
            batch.clear();
        }
        match conn_execute(&self.conn, "COMMIT") {
            Ok(_) => {},
            Err(e) => {
                return Err(storage_error("Failed to commit transaction", &e));
            },
        }
        proof {
            assert(lv.skip(lines@.len() as int) =~= Seq::<Seq<char>>::empty());
        }
        let mut msg = schema.name.clone();
        msg.append(": ");
        msg.append(crate::numfmt::u64_to_dec(count).as_str());
        msg.append(" records");
        ui.log(msg.as_str());
        Ok(count)
    }

    /// Re-enables foreign-key enforcement and asks the storage engine to
    /// optimize. Every failure is a storage-engine failure.
    pub fn finalize<U: Ui>(self, ui: &mut U) -> (r: Result<(), WriteError>)
        ensures
            r matches Err(e) ==> e matches WriteError::Storage(_),
    {
        ui.log("Finalizing database...");
        match conn_execute_batch(&self.conn, "PRAGMA foreign_keys = ON;") {
            Ok(_) => {},
            Err(e) => {
                return Err(storage_error("Failed to enable foreign keys", &e));
            },
        }
        match conn_execute_batch(&self.conn, "PRAGMA optimize;") {
            Ok(_) => {},
            Err(e) => {
                return Err(storage_error("Failed to optimize database", &e));
            },
        }
        Ok(())
    }
}

impl ParsedRow {
    /// Copies a row, field by field.
    pub fn clone_row(&self) -> (r: ParsedRow)
        ensures
            r.view_seq() == self.view_seq(),
    {
        let mut values: Vec<(String, SqlValue)> = Vec::new();
        let mut k: usize = 0;
        while k < self.values.len()
            invariant
                k <= self.values@.len(),
                values@.len() == k,
                forall|i: int| 0 <= i < k ==> (#[trigger] values@[i]).0@ == self.values@[i].0@
                    && crate::record::sql_view(values@[i].1) == crate::record::sql_view(
                    self.values@[i].1,
                ),
            decreases self.values@.len() - k,
        {
            let name = self.values[k].0.clone();
            let value = match &self.values[k].1 {
                SqlValue::Null => SqlValue::Null,
                SqlValue::Integer(i) => SqlValue::Integer(*i),
                SqlValue::Real(s) => SqlValue::Real(s.clone()),
                SqlValue::Text(s) => SqlValue::Text(s.clone()),
            };
            values.push((name, value));
            k += 1;
        }
        let r = ParsedRow { values };
        proof {
            assert(r.view_seq() =~= self.view_seq());
        }
        r
    }
}

/// Inserts every row of the batch through one prepared statement, binding
/// each column by name; a column absent from a row binds Null.
fn insert_batch(
    conn: &rusqlite::Connection,
    sql: &str,
    columns: &Vec<String>,
    batch: &Vec<ParsedRow>,
) -> (r: Result<(), WriteError>)
    ensures
        r matches Err(e) ==> e matches WriteError::Storage(_),
{
    let mut stmt = match conn_prepare(conn, sql) {
        Ok(s) => s,
        Err(e) => {
            return Err(storage_error("Failed to prepare insert", &e));
        },
    };
    let mut row_idx: usize = 0;
    while row_idx < batch.len()
        decreases batch@.len() - row_idx,
    {
        let row = &batch[row_idx];
        let mut col_idx: usize = 0;
        while col_idx < columns.len()
            decreases columns@.len() - col_idx,
        {
            let bound = match row.get(columns[col_idx].as_str()) {
                Some(v) => v.bind_to(col_idx + 1, &mut stmt),
                None => {
                    let null_value = SqlValue::Null;
                    null_value.bind_to(col_idx + 1, &mut stmt)
                },
            };
            match bound {
                Ok(_) => {},
                Err(e) => {
                    return Err(storage_error("Failed to bind parameter", &e));
                },
            }
            col_idx += 1;
        }
        match stmt_raw_execute(&mut stmt) {
            Ok(_) => {},
            Err(e) => {
                return Err(storage_error("Failed to insert row", &e));
            },
        }
        row_idx += 1;
    }
    Ok(())
}

} // verus!
