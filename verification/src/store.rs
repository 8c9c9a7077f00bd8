//! The SQLite store behind the dictionary: the statements that are run on it
//! and what each of them is taken to do.
//!
//! The functions of this file call `rusqlite`, and none of their contracts is
//! proved: each states, over `stored_entries` and `schema_names`, what SQLite
//! documents of the statement it runs. The contracts hold of a store whose
//! `dictionary` table, if it has one, was made and filled by this library
//! alone, on a connection with SQLite's own settings: a table with other
//! columns or with triggers, or a connection on which `LIKE` was made
//! case-sensitive, is not what they speak of.

use crate::entry::{entry_texts, DictionaryEntry, EntryText};
use crate::text::{
    is_matchable, is_plain, like_prefix_pattern, text_views, word_equals, word_starts_with,
};
use rusqlite::{Connection, Error};
use vstd::prelude::*;

verus! {

#[verifier::external_type_specification]
#[verifier::external_body]
pub struct ExConnection(Connection);

#[verifier::external_type_specification]
#[verifier::external_body]
pub struct ExError(Error);

/// The rows of the `dictionary` table of a store in the order of their ids,
/// which is oldest first, each as its word and its definition. A store
/// without that table holds no entries.
///
/// This is what the store holds, not what a call returns. The contracts
/// below speak of a table with the columns and the collation that
/// `CREATE_TABLE_SQL` gives it, without triggers, whose rows were added by
/// `INSERT_SQL`.
pub uninterp spec fn stored_entries(conn: Connection) -> Seq<EntryText>;

/// The names of the tables, views and indexes that a store holds.
pub uninterp spec fn schema_names(conn: Connection) -> Set<Seq<char>>;

/// The name of the table that holds the entries.
pub const TABLE_NAME: &'static str = "dictionary";

/// The name of the index on the words of the table.
pub const INDEX_NAME: &'static str = "idx_word";

/// The store has what lookups need: the table by its name, and the index.
pub open spec fn has_schema(conn: Connection) -> bool {
    schema_names(conn).contains(TABLE_NAME@) && schema_names(conn).contains(INDEX_NAME@)
}

/// The name of the store's file inside the directory that the caller keeps
/// its data in.
pub const DB_FILE_NAME: &'static str = "dictionary.db";

/// Makes the `dictionary` table unless the store has it.
pub const CREATE_TABLE_SQL: &'static str =
    "CREATE TABLE IF NOT EXISTS dictionary (id INTEGER PRIMARY KEY AUTOINCREMENT, word TEXT NOT NULL COLLATE NOCASE, definition TEXT NOT NULL)";

/// Makes the case-insensitive index on `word` unless the store has it.
pub const CREATE_INDEX_SQL: &'static str =
    "CREATE INDEX IF NOT EXISTS idx_word ON dictionary(word COLLATE NOCASE)";

/// Counts the rows of the table.
pub const COUNT_SQL: &'static str = "SELECT COUNT(*) FROM dictionary";

/// Adds one row; its two parameters are the word and the definition.
pub const INSERT_SQL: &'static str = "INSERT INTO dictionary (word, definition) VALUES (?, ?)";

/// Selects every row with its word and its definition, oldest first.
pub const ALL_SQL: &'static str = "SELECT word, definition FROM dictionary ORDER BY id";

/// Selects the definitions of the rows whose word equals the parameter when
/// the case of ASCII letters is ignored, oldest first.
pub const EXACT_SQL: &'static str =
    "SELECT definition FROM dictionary WHERE word = ? COLLATE NOCASE ORDER BY id";

/// Selects the definitions of the rows whose word matches the pattern in the
/// first parameter, in which `\` is the escape character, oldest first, and
/// stops after as many rows as the second parameter says.
pub const PREFIX_SQL: &'static str =
    "SELECT definition FROM dictionary WHERE word LIKE ? ESCAPE '\\' ORDER BY id LIMIT ?";

/// The definitions, oldest first, of the entries whose word satisfies `keep`.
pub open spec fn definitions_where(
    entries: Seq<EntryText>,
    keep: spec_fn(Seq<char>) -> bool,
) -> Seq<Seq<char>> {
    entries.filter(|e: EntryText| keep(e.0)).map_values(|e: EntryText| e.1)
}

/// The definitions of the entries whose word equals `term`, the case of ASCII
/// letters ignored.
pub open spec fn exact_definitions(entries: Seq<EntryText>, term: Seq<char>) -> Seq<Seq<char>> {
    definitions_where(entries, word_equals(term))
}

/// The definitions of the entries whose word starts with `prefix`, the case
/// of ASCII letters ignored.
pub open spec fn prefix_definitions(entries: Seq<EntryText>, prefix: Seq<char>) -> Seq<
    Seq<char>,
> {
    definitions_where(entries, word_starts_with(prefix))
}

/// The first `limit` of a list of definitions, or all of them where they are
/// fewer.
pub open spec fn first_definitions(all: Seq<Seq<char>>, limit: int) -> Seq<Seq<char>> {
    if all.len() <= limit {
        all
    } else {
        all.take(limit)
    }
}

/// Every row of a result was read without an error.
pub open spec fn all_rows_read<T>(rows: Seq<Result<T, String>>) -> bool {
    forall|i: int| 0 <= i < rows.len() ==> (#[trigger] rows[i]) is Ok
}

/// What the rows of a result hold, in order, where every row was read.
pub open spec fn rows_read<T>(rows: Seq<Result<T, String>>) -> Seq<T> {
    rows.map_values(|row: Result<T, String>| row->Ok_0)
}

/// Calls `Connection::open_in_memory`. A store that it opens is new and
/// holds no table.
#[verifier::external_body]
pub(crate) fn open_in_memory() -> (out: Result<Connection, Error>)
    ensures
        out matches Ok(conn) ==> stored_entries(conn).len() == 0,
{
    Connection::open_in_memory()
}

/// Calls `Connection::execute` without parameters, for one of the two
/// statements that make the schema. Whether they succeed or fail, they leave
/// the rows of the table as they were and take nothing out of the schema.
/// After a success the store holds what the statement names: a table or a
/// view called `TABLE_NAME`, or an index called `INDEX_NAME`, made now or
/// found there.
#[verifier::external_body]
pub(crate) fn execute_schema(conn: &mut Connection, sql: &str) -> (out: Result<usize, Error>)
    requires
        sql@ == CREATE_TABLE_SQL@ || sql@ == CREATE_INDEX_SQL@,
    ensures
        stored_entries(*final(conn)) == stored_entries(*old(conn)),
        schema_names(*old(conn)).subset_of(schema_names(*final(conn))),
        out is Ok && sql@ == CREATE_TABLE_SQL@ ==> schema_names(*final(conn)).contains(
            TABLE_NAME@,
        ),
        out is Ok && sql@ == CREATE_INDEX_SQL@ ==> schema_names(*final(conn)).contains(
            INDEX_NAME@,
        ),
{
    conn.execute(sql, [])
}

/// Calls `Connection::execute` with two text parameters, for the statement
/// that adds a row. On success the table has one more row, the newest, with
/// the word and the definition as given; on failure it is unchanged. The
/// schema stays as it is either way.
#[verifier::external_body]
pub(crate) fn execute_insert(conn: &mut Connection, sql: &str, word: &str, definition: &str) -> (out:
    Result<usize, Error>)
    requires
        sql@ == INSERT_SQL@,
    ensures
        out is Ok ==> stored_entries(*final(conn)) == stored_entries(*old(conn)).push(
            (word@, definition@),
        ),
        out is Err ==> stored_entries(*final(conn)) == stored_entries(*old(conn)),
        schema_names(*final(conn)) == schema_names(*old(conn)),
{
    conn.execute(sql, [word, definition])
}

/// Calls `Connection::query_row` for the statement that counts the rows, and
/// reads the count from the first column with `Row::get`.
#[verifier::external_body]
pub(crate) fn query_count(conn: &Connection, sql: &str) -> (out: Result<i64, Error>)
    requires
        sql@ == COUNT_SQL@,
    ensures
        out matches Ok(count) ==> count == stored_entries(*conn).len(),
{
    conn.query_row(sql, [], |row| row.get(0))
}

/// Calls `Connection::prepare` and `Statement::query_map` for the statement
/// that selects every row, reads each row's two columns as text with
/// `Row::get`, and turns each error into its text with `to_string`. Where
/// every row was read, the rows are the entries of the store, oldest first.
#[verifier::external_body]
pub(crate) fn query_all(conn: &Connection, sql: &str) -> (out: Result<
    Vec<Result<DictionaryEntry, String>>,
    String,
>)
    requires
        sql@ == ALL_SQL@,
    ensures
        out matches Ok(rows) ==> (all_rows_read(rows@) ==> entry_texts(rows_read(rows@))
            == stored_entries(*conn)),
{
    let mut statement = conn.prepare(sql).map_err(|e| e.to_string())?;
    let rows = statement
        .query_map([], |row| Ok(DictionaryEntry { word: row.get(0)?, definition: row.get(1)? }))
        .map_err(|e| e.to_string())?;
    Ok(rows.map(|row| row.map_err(|e| e.to_string())).collect())
}

/// Calls `Connection::prepare` and `Statement::query_map` for the exact
/// search, reads each row's first column as text with `Row::get`, and turns
/// each error into its text with `to_string`. Where every row was read and
/// the term holds no NUL, the rows are the definitions of the entries whose
/// word equals the term under `NOCASE`, oldest first.
#[verifier::external_body]
pub(crate) fn query_exact(conn: &Connection, sql: &str, term: &str) -> (out: Result<
    Vec<Result<String, String>>,
    String,
>)
    requires
        sql@ == EXACT_SQL@,
    ensures
        out matches Ok(rows) ==> (all_rows_read(rows@) && is_plain(term@) ==> text_views(
            rows_read(rows@),
        ) == exact_definitions(stored_entries(*conn), term@)),
{
    let mut statement = conn.prepare(sql).map_err(|e| e.to_string())?;
    let rows = statement
        .query_map([term], |row| row.get::<_, String>(0))
        .map_err(|e| e.to_string())?;
    Ok(rows.map(|row| row.map_err(|e| e.to_string())).collect())
}

/// Calls `Connection::prepare` and `Statement::query_map` for the prefix
/// search, reads each row's first column as text with `Row::get`, and turns
/// each error into its text with `to_string`. Where every row was read, the
/// limit is not negative, and the pattern is the one for a prefix of
/// characters that `LIKE` reads as themselves, the rows are the definitions
/// of the entries whose word starts with that prefix under `LIKE`, oldest
/// first: all of them, or the first ones as far as the limit allows.
#[verifier::external_body]
pub(crate) fn query_prefix(conn: &Connection, sql: &str, pattern: &str, limit: i64) -> (out:
    Result<Vec<Result<String, String>>, String>)
    requires
        sql@ == PREFIX_SQL@,
    ensures
        out matches Ok(rows) ==> forall|prefix: Seq<char>|
            all_rows_read(rows@) && limit >= 0 && is_matchable(prefix) && pattern@
                == #[trigger] like_prefix_pattern(prefix) ==> text_views(rows_read(rows@))
                == first_definitions(prefix_definitions(stored_entries(*conn), prefix), limit as int),
{
    let mut statement = conn.prepare(sql).map_err(|e| e.to_string())?;
    let rows = statement
        .query_map((pattern, limit), |row| row.get::<_, String>(0))
        .map_err(|e| e.to_string())?;
    Ok(rows.map(|row| row.map_err(|e| e.to_string())).collect())
}

} // verus!
