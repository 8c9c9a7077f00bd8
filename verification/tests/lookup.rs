use dictionary::db::{
    ensure_schema, init_db, search_dictionary, search_exact, search_prefix, PREFIX_LIMIT,
};
use dictionary::store::EXACT_SQL;
use dictionary::entry::DictionaryEntry;
use rusqlite::Connection;

fn seeded(entries: Vec<(&str, &str)>) -> Connection {
    let list = entries.iter().map(|(w, d)| DictionaryEntry::new(w, d)).collect();
    let (conn, _) = init_db(None, Some(list)).expect("an in-memory store can be initialized");
    conn
}

fn without_entries() -> Connection {
    let mut conn = Connection::open_in_memory().unwrap();
    ensure_schema(&mut conn).unwrap();
    conn
}

fn builtin() -> Connection {
    let (conn, _) = init_db(None, None).expect("an in-memory store can be initialized");
    conn
}

fn sorted(mut found: Vec<String>) -> Vec<String> {
    found.sort();
    found
}

#[test]
fn query_case_and_surrounding_space_do_not_matter() {
    let conn = builtin();
    let upper = search_dictionary("API", &conn).unwrap();
    let lower = search_dictionary("api", &conn).unwrap();
    let spaced = search_dictionary(" Api ", &conn).unwrap();
    assert_eq!(upper, lower);
    assert_eq!(spaced, lower);
    assert_eq!(
        lower,
        vec!["Application Programming Interface; protocols for building software.".to_string()]
    );
}

#[test]
fn exact_match_wins_over_prefix_matches() {
    let conn = seeded(vec![
        ("banker", "One who works at a bank."),
        ("bank", "An institution for handling money."),
        ("banking", "The business of a bank."),
    ]);
    let found = search_dictionary("bank", &conn).unwrap();
    assert_eq!(found, vec!["An institution for handling money.".to_string()]);
}

#[test]
fn prefix_search_returns_at_most_three() {
    let conn = seeded(vec![
        ("cache", "d1"),
        ("cab", "d2"),
        ("call", "d3"),
        ("camel", "d4"),
        ("canvas", "d5"),
        ("dog", "d6"),
    ]);
    let found = search_dictionary("ca", &conn).unwrap();
    assert_eq!(found.len(), 3);
    assert_eq!(PREFIX_LIMIT, 3);
    assert_eq!(found, vec!["d1".to_string(), "d2".to_string(), "d3".to_string()]);
}

#[test]
fn definitions_come_oldest_first() {
    let conn = seeded(vec![
        ("zeta", "z"),
        ("cab", "second"),
        ("alpha", "a"),
        ("CAB", "fourth"),
        ("cabin", "fifth"),
        ("ca", "sixth"),
    ]);
    assert_eq!(
        search_dictionary("cab", &conn),
        Ok(vec!["second".to_string(), "fourth".to_string()])
    );
    assert_eq!(
        search_prefix(&conn, "c"),
        Ok(vec!["second".to_string(), "fourth".to_string(), "fifth".to_string()])
    );
    assert_eq!(
        search_dictionary("c", &conn),
        Ok(vec!["second".to_string(), "fourth".to_string(), "fifth".to_string()])
    );
}

#[test]
fn queries_with_one_normal_form_get_one_answer() {
    let conn = builtin();
    let plain = search_dictionary("c", &conn);
    assert_eq!(search_dictionary("  C\t", &conn), plain);
    assert_eq!(search_dictionary("C", &conn), plain);
    assert_eq!(search_dictionary("c", &conn), plain);
    assert_eq!(
        plain,
        Ok(vec![
            "Storage for faster future data access.".to_string(),
            "A blueprint for creating objects in OOP.".to_string(),
            "A program that translates source code into machine code.".to_string(),
        ])
    );
}

#[test]
fn prefix_search_returns_all_when_fewer_than_three() {
    let conn = builtin();
    let found = sorted(search_dictionary("ar", &conn).unwrap());
    assert_eq!(found, vec!["A data structure containing a collection of elements.".to_string()]);
    let found = sorted(search_dictionary("B", &conn).unwrap());
    assert_eq!(
        found,
        vec![
            "A data type with only two values: true or false.".to_string(),
            "An institution for handling money; also, the land beside water.".to_string(),
            "Temporary storage for data being transferred.".to_string(),
        ]
    );
}

#[test]
fn no_match_is_success_with_no_definitions() {
    let conn = builtin();
    assert_eq!(search_dictionary("zzzzz", &conn), Ok(Vec::new()));
}

#[test]
fn empty_query_on_a_store_without_entries_finds_nothing() {
    let conn = without_entries();
    assert_eq!(search_dictionary("", &conn), Ok(Vec::new()));
    assert_eq!(search_dictionary("   ", &conn), Ok(Vec::new()));
}

#[test]
fn empty_query_is_a_prefix_of_every_word() {
    let conn = builtin();
    let found = search_dictionary("", &conn).unwrap();
    assert_eq!(found.len(), 3);
}

#[test]
fn duplicate_words_return_every_definition() {
    let conn = seeded(vec![
        ("cache", "Storage for faster future data access."),
        ("cache", "A hidden store of things."),
        ("cachet", "Prestige."),
    ]);
    let found = sorted(search_dictionary("cache", &conn).unwrap());
    assert_eq!(
        found,
        vec![
            "A hidden store of things.".to_string(),
            "Storage for faster future data access.".to_string(),
        ]
    );
}

#[test]
fn stored_words_are_lower_cased() {
    let conn = seeded(vec![("CACHE", "Upper"), ("Cache", "Mixed")]);
    let words: Vec<String> = conn
        .prepare("SELECT word FROM dictionary ORDER BY id")
        .unwrap()
        .query_map([], |row| row.get(0))
        .unwrap()
        .map(|row| row.unwrap())
        .collect();
    assert_eq!(words, vec!["cache".to_string(), "cache".to_string()]);
    let found = sorted(search_dictionary("cAcHe", &conn).unwrap());
    assert_eq!(found, vec!["Mixed".to_string(), "Upper".to_string()]);
}

#[test]
fn definitions_are_stored_as_given() {
    let conn = seeded(vec![("word", "  Mixed CASE, 100% _kept_ \\ as is.  ")]);
    assert_eq!(
        search_dictionary("word", &conn),
        Ok(vec!["  Mixed CASE, 100% _kept_ \\ as is.  ".to_string()])
    );
}

#[test]
fn percent_in_a_query_is_taken_literally() {
    let conn = seeded(vec![("100% sure", "certain"), ("1000", "a thousand"), ("zebra", "animal")]);
    assert_eq!(search_dictionary("100%", &conn), Ok(vec!["certain".to_string()]));
    assert_eq!(search_dictionary("%", &conn), Ok(Vec::new()));
    assert_eq!(search_dictionary("%ebra", &conn), Ok(Vec::new()));
}

#[test]
fn underscore_in_a_query_is_taken_literally() {
    let conn = seeded(vec![("a_b", "with underscore"), ("axb", "with x")]);
    assert_eq!(search_dictionary("a_", &conn), Ok(vec!["with underscore".to_string()]));
    assert_eq!(search_dictionary("_", &conn), Ok(Vec::new()));
}

#[test]
fn backslash_in_a_query_is_taken_literally() {
    let conn = seeded(vec![("a\\b", "with backslash"), ("ab", "plain")]);
    assert_eq!(search_dictionary("a\\", &conn), Ok(vec!["with backslash".to_string()]));
    assert_eq!(search_dictionary("\\", &conn), Ok(Vec::new()));
}

#[test]
fn prefix_search_ignores_ascii_case_of_stored_words() {
    let conn = Connection::open_in_memory().unwrap();
    conn.execute(
        "CREATE TABLE dictionary (id INTEGER PRIMARY KEY AUTOINCREMENT, word TEXT NOT NULL COLLATE NOCASE, definition TEXT NOT NULL)",
        [],
    )
    .unwrap();
    conn.execute(
        "INSERT INTO dictionary (word, definition) VALUES ('Compiler', 'translates')",
        [],
    )
    .unwrap();
    assert_eq!(search_exact(&conn, "compiler"), Ok(vec!["translates".to_string()]));
    assert_eq!(search_prefix(&conn, "comp"), Ok(vec!["translates".to_string()]));
    assert_eq!(search_dictionary("COMP", &conn), Ok(vec!["translates".to_string()]));
}

#[test]
fn exact_phase_returns_only_equal_words() {
    let conn = builtin();
    assert_eq!(search_exact(&conn, "loo"), Ok(Vec::new()));
    assert_eq!(
        search_exact(&conn, "loop"),
        Ok(vec!["A construct that repeats a block of code.".to_string()])
    );
}

#[test]
fn prefix_phase_includes_the_equal_word() {
    let conn = seeded(vec![("loop", "repeat"), ("loophole", "gap")]);
    let found = sorted(search_prefix(&conn, "loop").unwrap());
    assert_eq!(found, vec!["gap".to_string(), "repeat".to_string()]);
}

#[test]
fn a_store_without_the_table_fails_the_lookup() {
    let conn = Connection::open_in_memory().unwrap();
    let out = search_dictionary("api", &conn);
    let message = conn.prepare(EXACT_SQL).err().expect("the table is missing").to_string();
    assert!(message.contains("no such table"));
    assert_eq!(out, Err(message));
}

#[test]
fn a_store_without_the_table_fails_every_kind_of_lookup() {
    let conn = Connection::open_in_memory().unwrap();
    assert!(search_exact(&conn, "api").is_err());
    assert!(search_exact(&conn, "a\0pi").is_err());
    assert!(search_prefix(&conn, "api").is_err());
    assert!(search_prefix(&conn, "a\u{FFFF}").is_err());
    assert!(search_dictionary("a\0pi", &conn).is_err());
}

#[test]
fn a_failed_lookup_leaves_the_store_usable() {
    let conn = Connection::open_in_memory().unwrap();
    assert!(search_dictionary("api", &conn).is_err());
    let (conn, _) = init_db(Some(conn), None).unwrap();
    assert_eq!(search_dictionary("loop", &conn).unwrap().len(), 1);
}

#[test]
fn exact_search_is_not_capped() {
    let conn = seeded(vec![("set", "d1"), ("set", "d2"), ("set", "d3"), ("set", "d4"), ("settle", "d5")]);
    let found = sorted(search_dictionary("SET", &conn).unwrap());
    assert_eq!(
        found,
        vec!["d1".to_string(), "d2".to_string(), "d3".to_string(), "d4".to_string()]
    );
}

#[test]
fn words_beyond_ascii_are_found_through_lower_casing() {
    let conn = seeded(vec![("École", "school"), ("Écologie", "ecology")]);
    assert_eq!(search_dictionary("ÉCOLE", &conn), Ok(vec!["school".to_string()]));
    let found = sorted(search_dictionary("ÉCO", &conn).unwrap());
    assert_eq!(found, vec!["ecology".to_string(), "school".to_string()]);
}

#[test]
fn the_store_itself_ignores_case_of_ascii_letters_only() {
    let conn = Connection::open_in_memory().unwrap();
    conn.execute(
        "CREATE TABLE dictionary (id INTEGER PRIMARY KEY AUTOINCREMENT, word TEXT NOT NULL COLLATE NOCASE, definition TEXT NOT NULL)",
        [],
    )
    .unwrap();
    conn.execute("INSERT INTO dictionary (word, definition) VALUES ('École', 'school')", [])
        .unwrap();
    conn.execute("INSERT INTO dictionary (word, definition) VALUES ('ÉCOLE', 'shouted')", [])
        .unwrap();
    assert_eq!(search_exact(&conn, "école"), Ok(Vec::new()));
    assert_eq!(search_prefix(&conn, "éc"), Ok(Vec::new()));
    let found = sorted(search_exact(&conn, "École").unwrap());
    assert_eq!(found, vec!["school".to_string(), "shouted".to_string()]);
    let found = sorted(search_prefix(&conn, "Éc").unwrap());
    assert_eq!(found, vec!["school".to_string(), "shouted".to_string()]);
}

#[test]
fn the_three_characters_that_the_store_reads_as_one_stay_apart() {
    let conn = seeded(vec![("\u{FFFE}", "d")]);
    assert_eq!(search_dictionary("\u{FFFF}", &conn), Ok(Vec::new()));
    assert_eq!(search_dictionary("\u{FFFD}", &conn), Ok(Vec::new()));
    assert_eq!(search_dictionary("\u{FFFE}", &conn), Ok(vec!["d".to_string()]));
    assert_eq!(search_prefix(&conn, "\u{FFFF}"), Ok(Vec::new()));
    assert_eq!(search_prefix(&conn, "\u{FFFE}"), Ok(vec!["d".to_string()]));
}

#[test]
fn prefix_search_with_an_unusual_character_is_capped_and_ordered() {
    let conn = seeded(vec![
        ("\u{FFFF}a", "d1"),
        ("\u{FFFE}b", "no"),
        ("\u{FFFF}b", "d2"),
        ("\u{FFFF}C", "d3"),
        ("\u{FFFF}d", "d4"),
    ]);
    assert_eq!(
        search_dictionary("\u{FFFF}", &conn),
        Ok(vec!["d1".to_string(), "d2".to_string(), "d3".to_string()])
    );
    assert_eq!(search_dictionary("\u{FFFF}c", &conn), Ok(vec!["d3".to_string()]));
    assert_eq!(search_dictionary("\u{FFFF}D", &conn), Ok(vec!["d4".to_string()]));
}

#[test]
fn a_query_with_a_nul_is_compared_to_its_end() {
    let conn = seeded(vec![
        ("a\0b", "first"),
        ("a\0c", "second"),
        ("a\0bc", "third"),
        ("a", "plain"),
    ]);
    assert_eq!(search_dictionary("a\0b", &conn), Ok(vec!["first".to_string()]));
    assert_eq!(search_dictionary("A\0C", &conn), Ok(vec!["second".to_string()]));
    assert_eq!(search_exact(&conn, "a\0"), Ok(Vec::new()));
    assert_eq!(
        search_dictionary("a\0", &conn),
        Ok(vec!["first".to_string(), "second".to_string(), "third".to_string()])
    );
    assert_eq!(search_prefix(&conn, "a\0b"), Ok(vec!["first".to_string(), "third".to_string()]));
    assert_eq!(search_dictionary("a\0x", &conn), Ok(Vec::new()));
    assert_eq!(search_dictionary("a", &conn), Ok(vec!["plain".to_string()]));
}

#[test]
fn a_plain_query_finds_words_with_a_nul() {
    let conn = seeded(vec![("ab\0cd", "with nul"), ("abc", "plain")]);
    assert_eq!(search_exact(&conn, "ab"), Ok(Vec::new()));
    let found = sorted(search_dictionary("ab", &conn).unwrap());
    assert_eq!(found, vec!["plain".to_string(), "with nul".to_string()]);
}
