//! A word-definition lookup store kept in an embedded SQLite database.
//!
//! The store is seeded once, from an entry list handed in by the caller or
//! from a built-in list, and is then queried by word: an exact,
//! case-insensitive match is preferred, and a capped prefix match is the
//! fallback.

pub mod db;
pub mod entry;
pub mod laws;
pub mod scan;
pub mod store;
pub mod text;

pub use db::{
    init_db, insert_entries, load_dictionary_data, prepare_store, search_dictionary, InitError,
    SeedReport, SeedSource,
};
pub use entry::{get_fallback_entries, DictionaryEntry};
pub use store::DB_FILE_NAME;
