//! Dictionary entries and the built-in entry list.

use vstd::prelude::*;

verus! {

/// What an entry says: its word and its definition, as character sequences.
pub type EntryText = (Seq<char>, Seq<char>);

/// One word with one definition.
#[derive(Clone, Debug, PartialEq, Eq)]
pub struct DictionaryEntry {
    pub word: String,
    pub definition: String,
}

impl View for DictionaryEntry {
    type V = EntryText;

    open spec fn view(&self) -> EntryText {
        (self.word@, self.definition@)
    }
}

/// The texts of a list of entries, in order.
pub open spec fn entry_texts(entries: Seq<DictionaryEntry>) -> Seq<EntryText> {
    entries.map_values(|e: DictionaryEntry| e@)
}

impl DictionaryEntry {
    /// Builds an entry from a word and a definition, both kept as given.
    pub fn new(word: &str, definition: &str) -> (entry: DictionaryEntry)
        ensures
            entry@ == (word@, definition@),
    {
        DictionaryEntry { word: word.to_owned(), definition: definition.to_owned() }
    }
}

/// The built-in entry list: twenty common technical terms, each word already
/// in lower case, each with a short definition.
pub open spec fn fallback_texts() -> Seq<EntryText> {
    seq![
        ("algorithm"@, "A step-by-step procedure for solving a problem."@),
        ("api"@, "Application Programming Interface; protocols for building software."@),
        ("array"@, "A data structure containing a collection of elements."@),
        ("bank"@, "An institution for handling money; also, the land beside water."@),
        ("boolean"@, "A data type with only two values: true or false."@),
        ("buffer"@, "Temporary storage for data being transferred."@),
        ("cache"@, "Storage for faster future data access."@),
        ("class"@, "A blueprint for creating objects in OOP."@),
        ("compiler"@, "A program that translates source code into machine code."@),
        ("database"@, "An organized collection of structured data."@),
        ("debug"@, "To find and fix errors in software."@),
        ("function"@, "A reusable block of code that performs a task."@),
        ("interpreter"@, "A program that executes instructions directly."@),
        ("loop"@, "A construct that repeats a block of code."@),
        ("memory"@, "Storage for data and instructions."@),
        ("object"@, "An instance of a class with data and methods."@),
        ("pointer"@, "A variable storing a memory address."@),
        ("recursion"@, "A technique where a function calls itself."@),
        ("string"@, "A sequence of characters representing text."@),
        ("variable"@, "A named storage location for data."@),
    ]
}

/// The built-in entry list, used when no other seed source is available.
pub fn get_fallback_entries() -> (entries: Vec<DictionaryEntry>)
    ensures
        entry_texts(entries@) == fallback_texts(),
        entries@.len() == 20,
{
    let entries = vec![
        DictionaryEntry::new("algorithm", "A step-by-step procedure for solving a problem."),
        DictionaryEntry::new("api", "Application Programming Interface; protocols for building software."),
        DictionaryEntry::new("array", "A data structure containing a collection of elements."),
        DictionaryEntry::new("bank", "An institution for handling money; also, the land beside water."),
        DictionaryEntry::new("boolean", "A data type with only two values: true or false."),
        DictionaryEntry::new("buffer", "Temporary storage for data being transferred."),
        DictionaryEntry::new("cache", "Storage for faster future data access."),
        DictionaryEntry::new("class", "A blueprint for creating objects in OOP."),
        DictionaryEntry::new("compiler", "A program that translates source code into machine code."),
        DictionaryEntry::new("database", "An organized collection of structured data."),
        DictionaryEntry::new("debug", "To find and fix errors in software."),
        DictionaryEntry::new("function", "A reusable block of code that performs a task."),
        DictionaryEntry::new("interpreter", "A program that executes instructions directly."),
        DictionaryEntry::new("loop", "A construct that repeats a block of code."),
        DictionaryEntry::new("memory", "Storage for data and instructions."),
        DictionaryEntry::new("object", "An instance of a class with data and methods."),
        DictionaryEntry::new("pointer", "A variable storing a memory address."),
        DictionaryEntry::new("recursion", "A technique where a function calls itself."),
        DictionaryEntry::new("string", "A sequence of characters representing text."),
        DictionaryEntry::new("variable", "A named storage location for data."),
    ];
    assert(entry_texts(entries@) =~= fallback_texts());
    entries
}

} // verus!
