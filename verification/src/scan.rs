//! Selecting definitions from a list of entries by going through it: what a
//! lookup does itself for a query that the store would not compare as the
//! lookup means it.

use crate::entry::{entry_texts, DictionaryEntry, EntryText};
use crate::store::{
    definitions_where, exact_definitions, first_definitions, prefix_definitions,
};
use crate::text::{equal_nocase, starts_with_nocase, text_views, word_equals, word_starts_with};
use vstd::prelude::*;

verus! {

/// One more entry adds its definition to the selected ones where its word
/// satisfies `keep`, and changes nothing where it does not.
pub proof fn lemma_select_one_more(
    entries: Seq<EntryText>,
    keep: spec_fn(Seq<char>) -> bool,
    entry: EntryText,
)
    ensures
        definitions_where(entries.push(entry), keep) == if keep(entry.0) {
            definitions_where(entries, keep).push(entry.1)
        } else {
            definitions_where(entries, keep)
        },
{
    reveal(Seq::filter);
    let pred = |e: EntryText| keep(e.0);
    assert(entries.push(entry).drop_last() =~= entries);
    if keep(entry.0) {
        assert(entries.push(entry).filter(pred) == entries.filter(pred).push(entry));
        assert(definitions_where(entries.push(entry), keep) =~= definitions_where(
            entries,
            keep,
        ).push(entry.1));
    }
}

/// Selecting from two lists, one after the other, is selecting from each.
pub proof fn lemma_select_from_both(
    front: Seq<EntryText>,
    back: Seq<EntryText>,
    keep: spec_fn(Seq<char>) -> bool,
)
    ensures
        definitions_where(front + back, keep) == definitions_where(front, keep)
            + definitions_where(back, keep),
{
    let pred = |e: EntryText| keep(e.0);
    Seq::filter_distributes_over_add(front, back, pred);
    assert(definitions_where(front + back, keep) =~= definitions_where(front, keep)
        + definitions_where(back, keep));
}

/// The definitions of the entries whose word equals `term`, the case of
/// ASCII letters ignored, in the order of the entries.
pub fn select_equal(entries: &Vec<DictionaryEntry>, term: &str) -> (found: Vec<String>)
    ensures
        text_views(found@) == exact_definitions(entry_texts(entries@), term@),
{
    let mut found: Vec<String> = Vec::new();
    let mut i: usize = 0;
    while i < entries.len()
        invariant
            i <= entries@.len(),
            text_views(found@) == exact_definitions(entry_texts(entries@.take(i as int)), term@),
        decreases entries@.len() - i,
    {
        let entry = &entries[i];
        proof {
            let done = entries@.take(i as int);
            assert(entries@.take(i + 1) =~= done.push(entries@[i as int]));
            assert(entry_texts(done.push(entries@[i as int])) =~= entry_texts(done).push(entry@));
            lemma_select_one_more(entry_texts(done), word_equals(term@), entry@);
        }
        if equal_nocase(entry.word.as_str(), term) {
            let definition = entry.definition.clone();
            proof {
                assert(text_views(found@.push(definition)) =~= text_views(found@).push(
                    definition@,
                ));
            }
            found.push(definition);
        }
        i += 1;
    }
    proof {
        assert(entries@.take(entries@.len() as int) =~= entries@);
    }
    found
}

/// The definitions of the first `limit` entries whose word starts with
/// `prefix`, the case of ASCII letters ignored, in the order of the entries;
/// of all such entries where they are fewer.
pub fn select_starting(entries: &Vec<DictionaryEntry>, prefix: &str, limit: usize) -> (found: Vec<
    String,
>)
    ensures
        text_views(found@) == first_definitions(
            prefix_definitions(entry_texts(entries@), prefix@),
            limit as int,
        ),
{
    let ghost all = prefix_definitions(entry_texts(entries@), prefix@);
    let mut found: Vec<String> = Vec::new();
    let mut i: usize = 0;
    while i < entries.len() && found.len() < limit
        invariant
            i <= entries@.len(),
            found@.len() <= limit,
            text_views(found@) == prefix_definitions(
                entry_texts(entries@.take(i as int)),
                prefix@,
            ),
        decreases entries@.len() - i,
    {
        let entry = &entries[i];
        proof {
            let done = entries@.take(i as int);
            assert(entries@.take(i + 1) =~= done.push(entries@[i as int]));
            assert(entry_texts(done.push(entries@[i as int])) =~= entry_texts(done).push(entry@));
            lemma_select_one_more(entry_texts(done), word_starts_with(prefix@), entry@);
        }
        if starts_with_nocase(prefix, entry.word.as_str()) {
            let definition = entry.definition.clone();
            proof {
                assert(text_views(found@.push(definition)) =~= text_views(found@).push(
                    definition@,
                ));
            }
            found.push(definition);
        }
        i += 1;
    }
    proof {
        let front = entries@.take(i as int);
        let back = entries@.skip(i as int);
        assert(entries@ =~= front + back);
        assert(entry_texts(front + back) =~= entry_texts(front) + entry_texts(back));
        lemma_select_from_both(entry_texts(front), entry_texts(back), word_starts_with(prefix@));
        let first = prefix_definitions(entry_texts(front), prefix@);
        let rest = prefix_definitions(entry_texts(back), prefix@);
        assert(all == first + rest);
        if i == entries@.len() {
            assert(back =~= Seq::empty());
            assert(entry_texts(back) =~= Seq::empty());
            assert(entry_texts(back).filter(|e: EntryText| word_starts_with(prefix@)(e.0)).len()
                <= 0) by {
                entry_texts(back).lemma_filter_len(|e: EntryText| word_starts_with(prefix@)(e.0));
            }
            assert(all =~= first);
        } else {
            assert(first.len() == limit);
            assert((first + rest).take(limit as int) =~= first);
        }
    }
    found
}

} // verus!
