//! What holds of every initialization and of every lookup, stated over the
//! same spec functions as the contracts of the functions themselves.

use crate::db::{
    capped_prefix_definitions, entries_after_init, lookup_definitions, offers_entries,
    seed_texts, PREFIX_LIMIT,
};
use crate::entry::{fallback_texts, EntryText};
use crate::store::{definitions_where, exact_definitions, prefix_definitions};
use crate::text::{
    fold_ascii, lowercased, nocase_equal, nocase_prefix, normalized_query, word_equals,
    word_starts_with,
};
use vstd::prelude::*;

verus! {

/// A definition is among those selected by `keep` exactly when an entry has
/// it whose word satisfies `keep`.
pub proof fn lemma_selected_definitions(
    entries: Seq<EntryText>,
    keep: spec_fn(Seq<char>) -> bool,
    definition: Seq<char>,
)
    ensures
        definitions_where(entries, keep).contains(definition) <==> exists|i: int|
            0 <= i < entries.len() && keep((#[trigger] entries[i]).0) && entries[i].1
                == definition,
{
    broadcast use vstd::seq_lib::group_filter_ensures;

    let pred = |e: EntryText| keep(e.0);
    let kept = entries.filter(pred);
    let found = definitions_where(entries, keep);
    if found.contains(definition) {
        let k = choose|k: int| 0 <= k < found.len() && found[k] == definition;
        assert(pred(kept[k]));
        assert(kept.contains(kept[k]));
        entries.lemma_filter_contains_rev(pred, kept[k]);
        let i = choose|i: int| 0 <= i < entries.len() && entries[i] == kept[k];
        assert(keep(entries[i].0) && entries[i].1 == definition);
    }
    if exists|i: int|
        0 <= i < entries.len() && keep((#[trigger] entries[i]).0) && entries[i].1 == definition {
        let i = choose|i: int|
            0 <= i < entries.len() && keep((#[trigger] entries[i]).0) && entries[i].1
                == definition;
        assert(pred(entries[i]));
        assert(kept.contains(entries[i]));
        let k = choose|k: int| 0 <= k < kept.len() && kept[k] == entries[i];
        assert(found[k] == definition);
    }
}

/// Two entries whose words both satisfy `keep` give at least two selected
/// definitions.
pub proof fn lemma_two_selected(
    entries: Seq<EntryText>,
    keep: spec_fn(Seq<char>) -> bool,
    i: int,
    j: int,
)
    requires
        0 <= i < j < entries.len(),
        keep(entries[i].0),
        keep(entries[j].0),
    ensures
        definitions_where(entries, keep).len() >= 2,
    decreases entries.len(),
{
    broadcast use vstd::seq_lib::group_filter_ensures;

    reveal(Seq::filter);
    let pred = |e: EntryText| keep(e.0);
    let rest = entries.drop_last();
    if j == entries.len() - 1 {
        assert(pred(rest[i]));
        assert(rest.filter(pred).contains(rest[i]));
        assert(rest.filter(pred).len() >= 1);
        assert(pred(entries.last()));
    } else {
        lemma_two_selected(rest, keep, i, j);
    }
}

/// Comparing without case does not depend on the side a text stands on.
pub proof fn lemma_nocase_equal_symmetric(a: Seq<char>, b: Seq<char>)
    ensures
        nocase_equal(a, b) == nocase_equal(b, a),
{
    if nocase_equal(a, b) {
        assert forall|i: int| 0 <= i < b.len() implies fold_ascii(#[trigger] b[i]) == fold_ascii(
            a[i],
        ) by {
            assert(fold_ascii(a[i]) == fold_ascii(b[i]));
        }
    }
    if nocase_equal(b, a) {
        assert forall|i: int| 0 <= i < a.len() implies fold_ascii(#[trigger] a[i]) == fold_ascii(
            b[i],
        ) by {
            assert(fold_ascii(b[i]) == fold_ascii(a[i]));
        }
    }
}

/// A word that equals a term also starts with it.
pub proof fn lemma_equal_word_has_prefix(word: Seq<char>, term: Seq<char>)
    requires
        nocase_equal(word, term),
    ensures
        nocase_prefix(term, word),
{
    lemma_nocase_equal_symmetric(word, term);
    assert(word.subrange(0, term.len() as int) =~= word);
}

/// An initialization never leaves a store without entries: it keeps the
/// entries that the store has, or stores a seed, and no seed is empty.
pub proof fn lemma_initialization_leaves_entries(
    before: Seq<EntryText>,
    external: Option<Seq<EntryText>>,
)
    ensures
        entries_after_init(before, seed_texts(external)).len() > 0,
{
}

/// Seeding happens once: a second initialization of a store leaves the
/// entries as the first left them, whatever the caller offers either time.
/// No entry comes twice through it.
pub proof fn lemma_second_initialization_keeps_entries(
    before: Seq<EntryText>,
    first: Option<Seq<EntryText>>,
    second: Option<Seq<EntryText>>,
)
    ensures
        entries_after_init(entries_after_init(before, seed_texts(first)), seed_texts(second))
            == entries_after_init(before, seed_texts(first)),
{
    lemma_initialization_leaves_entries(before, first);
}

/// Where the caller offers no entries, no list or an empty one, a store
/// without entries is initialized to the twenty built-in entries, in their
/// order: each definition as it is written in the list, each word
/// lower-cased.
pub proof fn lemma_fresh_store_holds_builtin_entries(external: Option<Seq<EntryText>>)
    requires
        !offers_entries(external),
    ensures
        entries_after_init(Seq::empty(), seed_texts(external)).len() == 20,
        forall|i: int|
            0 <= i < 20 ==> {
                let stored = #[trigger] entries_after_init(Seq::empty(), seed_texts(external))[i];
                &&& stored.0 == lowercased(fallback_texts()[i].0)
                &&& stored.1 == fallback_texts()[i].1
            },
{
}

/// Terms that differ only in the case of ASCII letters are answered alike:
/// a lookup of one returns what a lookup of the other returns.
pub proof fn lemma_lookup_ignores_ascii_case(entries: Seq<EntryText>, a: Seq<char>, b: Seq<char>)
    requires
        nocase_equal(a, b),
    ensures
        lookup_definitions(entries, a) == lookup_definitions(entries, b),
{
    let exact_a = word_equals(a);
    let exact_b = word_equals(b);
    assert forall|word: Seq<char>| #[trigger] exact_a(word) == exact_b(word) by {
        if nocase_equal(word, a) {
            assert forall|i: int| 0 <= i < word.len() implies fold_ascii(#[trigger] word[i])
                == fold_ascii(b[i]) by {
                assert(fold_ascii(a[i]) == fold_ascii(b[i]));
            }
        }
        if nocase_equal(word, b) {
            assert forall|i: int| 0 <= i < word.len() implies fold_ascii(#[trigger] word[i])
                == fold_ascii(a[i]) by {
                assert(fold_ascii(a[i]) == fold_ascii(b[i]));
            }
        }
    }
    assert(exact_a =~= exact_b);
    let starts_a = word_starts_with(a);
    let starts_b = word_starts_with(b);
    assert forall|word: Seq<char>| #[trigger] starts_a(word) == starts_b(word) by {
        if a.len() <= word.len() {
            let head = word.subrange(0, a.len() as int);
            if nocase_equal(a, head) {
                assert forall|i: int| 0 <= i < b.len() implies fold_ascii(#[trigger] b[i])
                    == fold_ascii(head[i]) by {
                    assert(fold_ascii(a[i]) == fold_ascii(b[i]));
                    assert(fold_ascii(a[i]) == fold_ascii(head[i]));
                }
            }
            if nocase_equal(b, head) {
                assert forall|i: int| 0 <= i < a.len() implies fold_ascii(#[trigger] a[i])
                    == fold_ascii(head[i]) by {
                    assert(fold_ascii(a[i]) == fold_ascii(b[i]));
                    assert(fold_ascii(b[i]) == fold_ascii(head[i]));
                }
            }
        }
    }
    assert(starts_a =~= starts_b);
    assert(exact_definitions(entries, a) == exact_definitions(entries, b));
    assert(prefix_definitions(entries, a) == prefix_definitions(entries, b));
}

/// The answer depends on the query only through its normalized form: two
/// lookups in the same entries, for queries that are the same once trimmed
/// and lower-cased, return the same definitions in the same order.
pub proof fn lemma_same_normal_form_same_answer(
    entries: Seq<EntryText>,
    first_query: Seq<char>,
    second_query: Seq<char>,
    first_found: Seq<Seq<char>>,
    second_found: Seq<Seq<char>>,
)
    requires
        normalized_query(first_query) == normalized_query(second_query),
        first_found == lookup_definitions(entries, normalized_query(first_query)),
        second_found == lookup_definitions(entries, normalized_query(second_query)),
    ensures
        first_found == second_found,
{
}

/// An exact match takes precedence: where an entry's word equals the term,
/// a lookup returns the definitions of all entries with that word, this
/// entry's among them, and no definition of any other entry, whatever words
/// merely start with the term.
pub proof fn lemma_exact_match_takes_precedence(entries: Seq<EntryText>, term: Seq<char>, i: int)
    requires
        0 <= i < entries.len(),
        nocase_equal(entries[i].0, term),
    ensures
        lookup_definitions(entries, term) == exact_definitions(entries, term),
        lookup_definitions(entries, term).contains(entries[i].1),
        forall|definition: Seq<char>| #[trigger]
            lookup_definitions(entries, term).contains(definition) ==> exists|j: int|
                0 <= j < entries.len() && nocase_equal((#[trigger] entries[j]).0, term)
                    && entries[j].1 == definition,
{
    let keep = word_equals(term);
    let all = exact_definitions(entries, term);
    lemma_selected_definitions(entries, keep, entries[i].1);
    assert(all.contains(entries[i].1));
    assert forall|definition: Seq<char>| #[trigger] all.contains(definition) implies exists|
        j: int,
    |
        0 <= j < entries.len() && nocase_equal((#[trigger] entries[j]).0, term) && entries[j].1
            == definition by {
        lemma_selected_definitions(entries, keep, definition);
    }
}

/// A prefix search is capped: where no word equals the term, a lookup
/// returns the definitions of the first entries whose word starts with the
/// term, `PREFIX_LIMIT` of them or all where they are fewer, and so never
/// more than `PREFIX_LIMIT` definitions.
pub proof fn lemma_prefix_results_are_capped(entries: Seq<EntryText>, term: Seq<char>)
    requires
        forall|i: int| 0 <= i < entries.len() ==> !nocase_equal((#[trigger] entries[i]).0, term),
    ensures
        lookup_definitions(entries, term) == capped_prefix_definitions(entries, term),
        lookup_definitions(entries, term).len() <= PREFIX_LIMIT,
        lookup_definitions(entries, term).len() == if prefix_definitions(entries, term).len()
            <= PREFIX_LIMIT {
            prefix_definitions(entries, term).len()
        } else {
            PREFIX_LIMIT as nat
        },
        forall|definition: Seq<char>| #[trigger]
            lookup_definitions(entries, term).contains(definition) ==> exists|j: int|
                0 <= j < entries.len() && nocase_prefix(term, (#[trigger] entries[j]).0)
                    && entries[j].1 == definition,
{
    lemma_no_equal_word_no_exact_definition(entries, term);
    let keep = word_starts_with(term);
    let all = prefix_definitions(entries, term);
    let found = lookup_definitions(entries, term);
    assert forall|definition: Seq<char>| #[trigger] found.contains(definition) implies exists|
        j: int,
    |
        0 <= j < entries.len() && nocase_prefix(term, (#[trigger] entries[j]).0) && entries[j].1
            == definition by {
        let k = choose|k: int| 0 <= k < found.len() && found[k] == definition;
        assert(all[k] == definition);
        assert(all.contains(definition));
        lemma_selected_definitions(entries, keep, definition);
    }
}

/// Where no word equals the term, the exact search selects nothing.
pub proof fn lemma_no_equal_word_no_exact_definition(entries: Seq<EntryText>, term: Seq<char>)
    requires
        forall|i: int| 0 <= i < entries.len() ==> !nocase_equal((#[trigger] entries[i]).0, term),
    ensures
        exact_definitions(entries, term).len() == 0,
{
    let keep = word_equals(term);
    let all = exact_definitions(entries, term);
    if all.len() > 0 {
        assert(all.contains(all[0]));
        lemma_selected_definitions(entries, keep, all[0]);
    }
}

/// A lookup without a match returns no definition: where no word starts with
/// the term, what a lookup returns is empty.
pub proof fn lemma_no_match_gives_no_definitions(entries: Seq<EntryText>, term: Seq<char>)
    requires
        forall|i: int| 0 <= i < entries.len() ==> !nocase_prefix(term, (#[trigger] entries[i]).0),
    ensures
        lookup_definitions(entries, term).len() == 0,
{
    assert forall|i: int| 0 <= i < entries.len() implies !nocase_equal(
        (#[trigger] entries[i]).0,
        term,
    ) by {
        if nocase_equal(entries[i].0, term) {
            lemma_equal_word_has_prefix(entries[i].0, term);
        }
    }
    lemma_no_equal_word_no_exact_definition(entries, term);
    let keep = word_starts_with(term);
    let all = prefix_definitions(entries, term);
    if all.len() > 0 {
        assert(all.contains(all[0]));
        lemma_selected_definitions(entries, keep, all[0]);
    }
}

/// The empty term is a prefix of every word: in a store with entries, a
/// lookup of it finds no equal word unless a word is empty, and otherwise
/// returns definitions, never none.
pub proof fn lemma_empty_term_starts_every_word(entries: Seq<EntryText>)
    requires
        entries.len() > 0,
    ensures
        lookup_definitions(entries, Seq::empty()).len() > 0,
{
    let term = Seq::<char>::empty();
    assert(entries[0].0.subrange(0, 0) =~= term);
    assert(nocase_prefix(term, entries[0].0));
    lemma_selected_definitions(entries, word_starts_with(term), entries[0].1);
    let all = prefix_definitions(entries, term);
    assert(all.contains(entries[0].1));
    assert(all.len() > 0);
}

/// Entries may share a word: where two entries have the word that is looked
/// up, a lookup returns the definitions of both.
pub proof fn lemma_duplicate_words_return_all_definitions(
    entries: Seq<EntryText>,
    term: Seq<char>,
    i: int,
    j: int,
)
    requires
        0 <= i < j < entries.len(),
        nocase_equal(entries[i].0, term),
        nocase_equal(entries[j].0, term),
    ensures
        lookup_definitions(entries, term).contains(entries[i].1),
        lookup_definitions(entries, term).contains(entries[j].1),
        lookup_definitions(entries, term).len() >= 2,
{
    let keep = word_equals(term);
    lemma_two_selected(entries, keep, i, j);
    lemma_selected_definitions(entries, keep, entries[i].1);
    lemma_selected_definitions(entries, keep, entries[j].1);
}

} // verus!
