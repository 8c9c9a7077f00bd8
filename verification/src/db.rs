//! Initialization, seeding and lookup on a store.
//!
//! What the contracts say of a store holds of one that this library made and
//! filled, on a connection with SQLite's own settings. A table `dictionary`
//! with other columns or with triggers, or a connection on which `LIKE` was
//! made case-sensitive, is outside of what they speak of.

use crate::entry::{entry_texts, fallback_texts, get_fallback_entries, DictionaryEntry, EntryText};
use crate::scan::{select_equal, select_starting};
use crate::store::{
    all_rows_read, exact_definitions, execute_insert, execute_schema, first_definitions,
    has_schema, open_in_memory, prefix_definitions, query_all,
    query_count, query_exact, query_prefix, rows_read, schema_names, stored_entries, ALL_SQL,
    COUNT_SQL, CREATE_INDEX_SQL, CREATE_TABLE_SQL, EXACT_SQL, INSERT_SQL, PREFIX_SQL,
};
use crate::text::{
    is_matchable_text, is_plain_text, lowercased, normalize_query, normalized_query,
    prefix_pattern, text_views, to_lowercase,
};
use rusqlite::{Connection, Error};
use vstd::prelude::*;

verus! {

/// The rows as they are stored for a list of entries: each word lower-cased,
/// each definition as given.
pub open spec fn seeded_rows(entries: Seq<EntryText>) -> Seq<EntryText> {
    entries.map_values(|e: EntryText| (lowercased(e.0), e.1))
}

/// Takes the rows of a result out of their wrapping, in order. The first
/// row that was not read makes the whole result fail with that row's error.
pub fn collect_rows<T>(rows: Vec<Result<T, String>>) -> (out: Result<Vec<T>, String>)
    ensures
        out is Ok <==> all_rows_read(rows@),
        out matches Ok(items) ==> items@ == rows_read(rows@),
        out matches Err(message) ==> exists|i: int|
            0 <= i < rows@.len() && all_rows_read(rows@.take(i)) && #[trigger] rows@[i] == Err::<
                T,
                String,
            >(message),
{
    let ghost all = rows@;
    let mut items: Vec<T> = Vec::new();
    for row in it: rows
        invariant
            it.seq() == all,
            items@.len() == it.index(),
            all_rows_read(all.take(it.index() as int)),
            items@ == rows_read(all.take(it.index() as int)),
    {
        let ghost i = it.index() as int;
        match row {
            Ok(item) => {
                proof {
                    assert(all.take(i + 1) =~= all.take(i).push(all[i]));
                    assert(rows_read(all.take(i + 1)) =~= rows_read(all.take(i)).push(item));
                }
                items.push(item);
            },
            Err(message) => {
                assert(all[i] == Err::<T, String>(message));
                return Err(message);
            },
        }
    }
    proof {
        assert(all.take(all.len() as int) =~= all);
    }
    Ok(items)
}

/// Stores the entries in order, each word lower-cased. Stops at the first
/// entry that the store refuses and returns its error; the entries before it
/// stay stored.
pub fn insert_entries(conn: &mut Connection, entries: &Vec<DictionaryEntry>) -> (out: Result<
    (),
    Error,
>)
    ensures
        out is Ok ==> stored_entries(*final(conn)) == stored_entries(*old(conn)) + seeded_rows(
            entry_texts(entries@),
        ),
        out is Err ==> exists|n: int|
            0 <= n < entries@.len() && stored_entries(*final(conn)) == stored_entries(*old(conn))
                + #[trigger] seeded_rows(entry_texts(entries@.take(n))),
        schema_names(*final(conn)) == schema_names(*old(conn)),
{
    let ghost before = stored_entries(*conn);
    let mut i: usize = 0;
    while i < entries.len()
        invariant
            i <= entries@.len(),
            before == stored_entries(*old(conn)),
            stored_entries(*conn) == before + seeded_rows(entry_texts(entries@.take(i as int))),
            schema_names(*conn) == schema_names(*old(conn)),
        decreases entries@.len() - i,
    {
        let entry = &entries[i];
        let word = to_lowercase(entry.word.as_str());
        match execute_insert(conn, INSERT_SQL, word.as_str(), entry.definition.as_str()) {
            Ok(_) => {},
            Err(error) => {
                return Err(error);
            },
        }
        proof {
            let done = entries@.take(i as int);
            let next = entries@.take(i + 1);
            assert(next =~= done.push(entries@[i as int]));
            assert(seeded_rows(entry_texts(next)) =~= seeded_rows(entry_texts(done)).push(
                (word@, entry.definition@),
            ));
        }
        i += 1;
    }
    proof {
        assert(entries@.take(entries@.len() as int) =~= entries@);
    }
    Ok(())
}

/// Where the stored entries came from.
#[derive(Clone, Copy, Debug, PartialEq, Eq, Structural)]
pub enum SeedSource {
    /// The entry list that the caller read from its seed file.
    External,
    /// The built-in entry list.
    Fallback,
}

/// What a seeding did: where the entries came from and how many were stored.
#[derive(Clone, Copy, Debug, PartialEq, Eq, Structural)]
pub struct SeedReport {
    pub source: SeedSource,
    pub count: usize,
}

/// The texts of the entry list that the caller offers, if it offers one.
pub open spec fn external_texts(external: Option<Vec<DictionaryEntry>>) -> Option<Seq<EntryText>> {
    match external {
        Some(entries) => Some(entry_texts(entries@)),
        None => None,
    }
}

/// The caller offers entries: a list, and not an empty one.
pub open spec fn offers_entries(external: Option<Seq<EntryText>>) -> bool {
    external matches Some(entries) && entries.len() > 0
}

/// The entries that a seeding stores: those of the caller where it offers
/// any, else the built-in ones. A seeding never stores nothing.
pub open spec fn seed_texts(external: Option<Seq<EntryText>>) -> Seq<EntryText> {
    if offers_entries(external) {
        external->0
    } else {
        fallback_texts()
    }
}

/// The source that a seeding names in its report.
pub open spec fn seed_source(external: Option<Seq<EntryText>>) -> SeedSource {
    if offers_entries(external) {
        SeedSource::External
    } else {
        SeedSource::Fallback
    }
}

/// Picks the entries to seed with: the caller's list where it holds any
/// entry, the built-in list where the caller has no list or an empty one.
pub fn choose_seed(external: Option<Vec<DictionaryEntry>>) -> (out: (
    SeedSource,
    Vec<DictionaryEntry>,
))
    ensures
        out.0 == seed_source(external_texts(external)),
        entry_texts(out.1@) == seed_texts(external_texts(external)),
        out.1@.len() > 0,
{
    match external {
        Some(entries) => {
            if entries.len() > 0 {
                (SeedSource::External, entries)
            } else {
                (SeedSource::Fallback, get_fallback_entries())
            }
        },
        None => (SeedSource::Fallback, get_fallback_entries()),
    }
}

/// Seeds a store: stores the caller's entries, or the built-in ones where the
/// caller has none, each word lower-cased: at least one entry. Fails with the
/// store's error at the first entry that the store refuses; the entries
/// before it stay stored.
pub fn load_dictionary_data(conn: &mut Connection, external: Option<Vec<DictionaryEntry>>) -> (out:
    Result<SeedReport, Error>)
    ensures
        out matches Ok(report) ==> {
            let seed = seed_texts(external_texts(external));
            &&& stored_entries(*final(conn)) == stored_entries(*old(conn)) + seeded_rows(seed)
            &&& report.source == seed_source(external_texts(external))
            &&& report.count == seed.len()
            &&& report.count > 0
        },
        out is Err ==> exists|n: int|
            0 <= n < seed_texts(external_texts(external)).len() && stored_entries(*final(conn))
                == stored_entries(*old(conn)) + #[trigger] seeded_rows(
                seed_texts(external_texts(external)).take(n),
            ),
        schema_names(*final(conn)) == schema_names(*old(conn)),
{
    let ghost seed = seed_texts(external_texts(external));
    let (source, entries) = choose_seed(external);
    match insert_entries(conn, &entries) {
        Ok(()) => Ok(SeedReport { source, count: entries.len() }),
        Err(error) => {
            proof {
                let n = choose|n: int|
                    0 <= n < entries@.len() && stored_entries(*conn) == stored_entries(*old(conn))
                        + #[trigger] seeded_rows(entry_texts(entries@.take(n)));
                assert(entry_texts(entries@.take(n)) =~= seed.take(n));
            }
            Err(error)
        },
    }
}

/// Why an initialization failed: the step that the store refused, with the
/// store's error.
#[derive(Debug)]
pub enum InitError {
    /// No in-memory store could be opened.
    Open(Error),
    /// The table or its index could not be made.
    Schema(Error),
    /// The rows could not be counted.
    Count(Error),
    /// An entry could not be stored.
    Seed(Error),
}

/// The entries of the store that an initialization starts from: those of the
/// persistent store where the caller has opened one, none in a new in-memory
/// store.
pub open spec fn initial_entries(persistent: Option<Connection>) -> Seq<EntryText> {
    match persistent {
        Some(conn) => stored_entries(conn),
        None => Seq::empty(),
    }
}

/// The entries of a store after an initialization: an empty store is seeded,
/// any other is left as it is.
pub open spec fn entries_after_init(before: Seq<EntryText>, seed: Seq<EntryText>) -> Seq<
    EntryText,
> {
    if before.len() == 0 {
        seeded_rows(seed)
    } else {
        before
    }
}

/// A store with this many rows has not been seeded yet.
pub fn is_unseeded(count: i64) -> (unseeded: bool)
    ensures
        unseeded == (count == 0),
{
    count == 0
}

/// Makes the table and its index where the store lacks them. After a
/// success the store has both. Whether this succeeds or fails, the entries
/// of the store stay as they are and nothing leaves its schema.
pub fn ensure_schema(conn: &mut Connection) -> (out: Result<(), Error>)
    ensures
        stored_entries(*final(conn)) == stored_entries(*old(conn)),
        schema_names(*old(conn)).subset_of(schema_names(*final(conn))),
        out is Ok ==> has_schema(*final(conn)),
{
    match execute_schema(conn, CREATE_TABLE_SQL) {
        Ok(_) => {},
        Err(error) => {
            return Err(error);
        },
    }
    match execute_schema(conn, CREATE_INDEX_SQL) {
        Ok(_) => Ok(()),
        Err(error) => Err(error),
    }
}

/// Makes a store ready for its entries and tells whether it still lacks
/// them: makes the schema where it is missing, then counts the rows. `Ok`
/// says whether the store holds no entry, and so is to be seeded. The
/// entries stay as they are and nothing leaves the schema, whatever the
/// outcome; only the schema or the count can fail.
pub fn prepare_store(conn: &mut Connection) -> (out: Result<bool, InitError>)
    ensures
        stored_entries(*final(conn)) == stored_entries(*old(conn)),
        schema_names(*old(conn)).subset_of(schema_names(*final(conn))),
        out matches Ok(unseeded) ==> has_schema(*final(conn)) && unseeded == (stored_entries(
            *final(conn),
        ).len() == 0),
        out matches Err(error) ==> error is Schema || error is Count,
{
    match ensure_schema(conn) {
        Ok(()) => {},
        Err(error) => {
            return Err(InitError::Schema(error));
        },
    }
    match query_count(conn, COUNT_SQL) {
        Ok(count) => Ok(is_unseeded(count)),
        Err(error) => Err(InitError::Count(error)),
    }
}

/// Initializes a store and hands it back ready for lookups.
///
/// `persistent` is the store that the caller opened at its persistent
/// location; without one a new in-memory store is opened. The schema is made
/// where it is missing, and a store without entries is seeded: from
/// `external` where that holds any entry, else from the built-in list. A
/// store that already holds entries is not seeded again. After a success
/// the store has its schema and at least one entry. The report says what a
/// seeding stored; it is `None` where there was no seeding.
///
/// The contract speaks of a store that this library made, or of a new one:
/// see the note at the head of this file.
pub fn init_db(persistent: Option<Connection>, external: Option<Vec<DictionaryEntry>>) -> (out:
    Result<(Connection, Option<SeedReport>), InitError>)
    ensures
        out matches Ok((conn, seeded)) ==> {
            let before = initial_entries(persistent);
            let seed = seed_texts(external_texts(external));
            &&& stored_entries(conn) == entries_after_init(before, seed)
            &&& stored_entries(conn).len() > 0
            &&& has_schema(conn)
            &&& before.len() != 0 ==> seeded is None
            &&& before.len() == 0 ==> (seeded matches Some(report) && report.source
                == seed_source(external_texts(external)) && report.count == seed.len())
        },
        out matches Err(InitError::Open(_)) ==> persistent is None,
        out matches Err(InitError::Seed(_)) ==> initial_entries(persistent).len() == 0,
{
    let mut conn = match persistent {
        Some(conn) => conn,
        None => match open_in_memory() {
            Ok(conn) => conn,
            Err(error) => {
                return Err(InitError::Open(error));
            },
        },
    };
    proof {
        assert(stored_entries(conn) =~= initial_entries(persistent));
    }
    let unseeded = match prepare_store(&mut conn) {
        Ok(unseeded) => unseeded,
        Err(error) => {
            return Err(error);
        },
    };
    if !unseeded {
        return Ok((conn, None));
    }
    proof {
        assert(stored_entries(conn) =~= Seq::empty());
    }
    match load_dictionary_data(&mut conn, external) {
        Ok(report) => {
            proof {
                let rows = seeded_rows(seed_texts(external_texts(external)));
                assert(Seq::<EntryText>::empty() + rows =~= rows);
            }
            Ok((conn, Some(report)))
        },
        Err(error) => Err(InitError::Seed(error)),
    }
}

/// The most definitions that a prefix search returns.
pub const PREFIX_LIMIT: usize = 3;

/// The definitions of the entries whose word starts with `term`, the case
/// of ASCII letters ignored, oldest first, `PREFIX_LIMIT` of them at most.
pub open spec fn capped_prefix_definitions(entries: Seq<EntryText>, term: Seq<char>) -> Seq<
    Seq<char>,
> {
    first_definitions(prefix_definitions(entries, term), PREFIX_LIMIT as int)
}

/// What a lookup of `term` in `entries` returns: the definitions of all
/// entries whose word equals the term, or, where no word equals it, the
/// definitions of the first `PREFIX_LIMIT` entries whose word starts with
/// it. Words are compared with the case of ASCII letters ignored, and the
/// definitions come oldest first.
pub open spec fn lookup_definitions(entries: Seq<EntryText>, term: Seq<char>) -> Seq<Seq<char>> {
    if exact_definitions(entries, term).len() > 0 {
        exact_definitions(entries, term)
    } else {
        capped_prefix_definitions(entries, term)
    }
}

/// What a lookup makes of what the store returned for a query: the rows, in
/// their order, where the query ran and every row was read; else the message
/// of the query's error, or that of the first row that was not read.
pub fn read_rows<T>(outcome: Result<Vec<Result<T, String>>, String>) -> (out: Result<
    Vec<T>,
    String,
>)
    ensures
        out is Ok <==> (outcome matches Ok(rows) && all_rows_read(rows@)),
        out matches Ok(items) ==> (outcome matches Ok(rows) && items@ == rows_read(rows@)),
        outcome matches Err(message) ==> out == Err::<Vec<T>, String>(message),
        out matches Err(message) ==> (outcome matches Ok(rows) ==> exists|i: int|
            0 <= i < rows@.len() && all_rows_read(rows@.take(i)) && #[trigger] rows@[i] == Err::<
                T,
                String,
            >(message)),
{
    match outcome {
        Ok(rows) => collect_rows(rows),
        Err(message) => Err(message),
    }
}

/// Whether a lookup goes on to the prefix phase: only where the exact phase
/// ran and found nothing.
pub fn wants_prefix_phase(exact: &Result<Vec<String>, String>) -> (wanted: bool)
    ensures
        wanted == (exact matches Ok(found) && found@.len() == 0),
{
    match exact {
        Ok(found) => found.is_empty(),
        Err(_) => false,
    }
}

/// The first phase of a lookup: the definitions of all entries whose word
/// equals `term`, the case of ASCII letters ignored, oldest first. The store
/// selects them; for a term with a NUL character, which the store would not
/// compare to its end, the entries are gone through here. A failure of the
/// store is `Err` with the store's message.
pub fn search_exact(conn: &Connection, term: &str) -> (out: Result<Vec<String>, String>)
    ensures
        out matches Ok(found) ==> text_views(found@) == exact_definitions(
            stored_entries(*conn),
            term@,
        ),
{
    if is_plain_text(term) {
        return read_rows(query_exact(conn, EXACT_SQL, term));
    }
    match read_rows(query_all(conn, ALL_SQL)) {
        Ok(entries) => Ok(select_equal(&entries, term)),
        Err(message) => Err(message),
    }
}

/// The second phase of a lookup: the definitions of the first `PREFIX_LIMIT`
/// entries whose word starts with `term`, the case of ASCII letters ignored,
/// oldest first. The store selects them; for a term with a character that
/// the store would not match as itself, the entries are gone through here.
/// A failure of the store is `Err` with the store's message.
pub fn search_prefix(conn: &Connection, term: &str) -> (out: Result<Vec<String>, String>)
    ensures
        out matches Ok(found) ==> text_views(found@) == capped_prefix_definitions(
            stored_entries(*conn),
            term@,
        ),
{
    if is_matchable_text(term) {
        let pattern = prefix_pattern(term);
        return read_rows(query_prefix(conn, PREFIX_SQL, pattern.as_str(), PREFIX_LIMIT as i64));
    }
    match read_rows(query_all(conn, ALL_SQL)) {
        Ok(entries) => Ok(select_starting(&entries, term, PREFIX_LIMIT)),
        Err(message) => Err(message),
    }
}

/// Looks a word up. The query is trimmed and lower-cased; the definitions
/// of the entries with exactly that word are returned, or, where there is no
/// such entry, the definitions of the first `PREFIX_LIMIT` entries whose
/// word starts with it. No match is `Ok` with no definitions. A failure of
/// the store is `Err` with the store's message.
///
/// The contract speaks of a store that this library made: see the note at
/// the head of this file.
pub fn search_dictionary(word: &str, conn: &Connection) -> (out: Result<Vec<String>, String>)
    ensures
        out matches Ok(found) ==> text_views(found@) == lookup_definitions(
            stored_entries(*conn),
            normalized_query(word@),
        ),
{
    let search_term = normalize_query(word);
    let exact = search_exact(conn, search_term.as_str());
    if !wants_prefix_phase(&exact) {
        return exact;
    }
    search_prefix(conn, search_term.as_str())
}

} // verus!
