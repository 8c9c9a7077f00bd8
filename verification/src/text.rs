//! Text handling: how a query is normalized, how words are compared, and how
//! the pattern of a prefix search is written.

use vstd::prelude::*;

verus! {

/// What `str::trim` returns for a text: the text without its leading and
/// trailing white space.
pub uninterp spec fn trimmed(text: Seq<char>) -> Seq<char>;

/// What `str::to_lowercase` returns for a text: its lower-case equivalent.
pub uninterp spec fn lowercased(text: Seq<char>) -> Seq<char>;

/// Calls `str::trim`. The result is a function of the text alone; the
/// contract gives it the name `trimmed`.
#[verifier::external_body]
fn trim(text: &str) -> (out: &str)
    ensures
        out@ == trimmed(text@),
{
    text.trim()
}

/// Calls `str::to_lowercase`. The result is a function of the text alone;
/// the contract gives it the name `lowercased`.
#[verifier::external_body]
pub(crate) fn to_lowercase(text: &str) -> (out: String)
    ensures
        out@ == lowercased(text@),
{
    text.to_lowercase()
}

/// Calls `String::push`, which appends one character to the end of the text.
#[verifier::external_body]
fn push_char(text: &mut String, c: char)
    ensures
        final(text)@ == old(text)@.push(c),
{
    text.push(c)
}

/// The character sequences of a list of texts, in order.
pub open spec fn text_views(texts: Seq<String>) -> Seq<Seq<char>> {
    texts.map_values(|t: String| t@)
}

/// The form in which a query is looked up: trimmed, then lower-cased.
pub open spec fn normalized_query(query: Seq<char>) -> Seq<char> {
    lowercased(trimmed(query))
}

/// Normalizes a query: removes the white space around it and lower-cases it.
pub fn normalize_query(query: &str) -> (term: String)
    ensures
        term@ == normalized_query(query@),
{
    to_lowercase(trim(query))
}

/// A character with the 26 upper-case ASCII letters folded to lower case.
/// Every other character stands for itself.
pub open spec fn fold_ascii(c: char) -> char {
    if 'A' <= c && c <= 'Z' {
        ((c as u32) + 32) as char
    } else {
        c
    }
}

/// Two texts are equal when the case of ASCII letters is ignored.
pub open spec fn nocase_equal(a: Seq<char>, b: Seq<char>) -> bool {
    &&& a.len() == b.len()
    &&& forall|i: int| 0 <= i < a.len() ==> fold_ascii(#[trigger] a[i]) == fold_ascii(b[i])
}

/// `word` starts with `prefix` when the case of ASCII letters is ignored.
pub open spec fn nocase_prefix(prefix: Seq<char>, word: Seq<char>) -> bool {
    &&& prefix.len() <= word.len()
    &&& nocase_equal(prefix, word.subrange(0, prefix.len() as int))
}

/// The test that a word equals `term`, the case of ASCII letters ignored.
pub open spec fn word_equals(term: Seq<char>) -> spec_fn(Seq<char>) -> bool {
    |word: Seq<char>| nocase_equal(word, term)
}

/// The test that a word starts with `prefix`, the case of ASCII letters
/// ignored.
pub open spec fn word_starts_with(prefix: Seq<char>) -> spec_fn(Seq<char>) -> bool {
    |word: Seq<char>| nocase_prefix(prefix, word)
}

/// A text that holds no NUL character. The store compares such a text with
/// a word as `nocase_equal` does.
pub open spec fn is_plain(text: Seq<char>) -> bool {
    forall|i: int| 0 <= i < text.len() ==> #[trigger] text[i] != '\0'
}

/// A character that the store's pattern matching reads as itself: not NUL,
/// which ends a text there, and none of U+FFFD, U+FFFE and U+FFFF, which it
/// reads as one and the same character.
pub open spec fn is_matchable_char(c: char) -> bool {
    c != '\0' && c != '\u{FFFD}' && c != '\u{FFFE}' && c != '\u{FFFF}'
}

/// A text of characters that the store's pattern matching reads as
/// themselves. The store matches the pattern of such a prefix with a word
/// as `nocase_prefix` does.
pub open spec fn is_matchable(text: Seq<char>) -> bool {
    forall|i: int| 0 <= i < text.len() ==> is_matchable_char(#[trigger] text[i])
}

/// Tells whether a text holds no NUL character.
pub fn is_plain_text(text: &str) -> (plain: bool)
    ensures
        plain == is_plain(text@),
{
    let n = text.unicode_len();
    let mut i: usize = 0;
    while i < n
        invariant
            i <= n,
            n == text@.len(),
            forall|j: int| 0 <= j < i ==> #[trigger] text@[j] != '\0',
        decreases n - i,
    {
        if text.get_char(i) == '\0' {
            return false;
        }
        i += 1;
    }
    true
}

/// Tells whether the store's pattern matching reads every character of a
/// text as itself.
pub fn is_matchable_text(text: &str) -> (matchable: bool)
    ensures
        matchable == is_matchable(text@),
{
    let n = text.unicode_len();
    let mut i: usize = 0;
    while i < n
        invariant
            i <= n,
            n == text@.len(),
            forall|j: int| 0 <= j < i ==> is_matchable_char(#[trigger] text@[j]),
        decreases n - i,
    {
        let c = text.get_char(i);
        if c == '\0' || c == '\u{FFFD}' || c == '\u{FFFE}' || c == '\u{FFFF}' {
            assert(!is_matchable_char(text@[i as int]));
            return false;
        }
        i += 1;
    }
    true
}

/// Folds an upper-case ASCII letter to lower case and leaves every other
/// character as it is.
pub fn fold_char(c: char) -> (folded: char)
    ensures
        folded == fold_ascii(c),
{
    if 'A' <= c && c <= 'Z' {
        ((c as u8) + 32) as char
    } else {
        c
    }
}

/// Compares two texts with the case of ASCII letters ignored.
pub fn equal_nocase(a: &str, b: &str) -> (equal: bool)
    ensures
        equal == nocase_equal(a@, b@),
{
    let n = a.unicode_len();
    if n != b.unicode_len() {
        return false;
    }
    let mut i: usize = 0;
    while i < n
        invariant
            i <= n,
            n == a@.len(),
            n == b@.len(),
            forall|j: int| 0 <= j < i ==> fold_ascii(#[trigger] a@[j]) == fold_ascii(b@[j]),
        decreases n - i,
    {
        if fold_char(a.get_char(i)) != fold_char(b.get_char(i)) {
            assert(fold_ascii(a@[i as int]) != fold_ascii(b@[i as int]));
            return false;
        }
        i += 1;
    }
    true
}

/// Tells whether `word` starts with `prefix`, the case of ASCII letters
/// ignored.
pub fn starts_with_nocase(prefix: &str, word: &str) -> (starts: bool)
    ensures
        starts == nocase_prefix(prefix@, word@),
{
    let n = prefix.unicode_len();
    if n > word.unicode_len() {
        return false;
    }
    let ghost head = word@.subrange(0, n as int);
    let mut i: usize = 0;
    while i < n
        invariant
            i <= n,
            n == prefix@.len(),
            n <= word@.len(),
            head == word@.subrange(0, n as int),
            forall|j: int| 0 <= j < i ==> fold_ascii(#[trigger] prefix@[j]) == fold_ascii(head[j]),
        decreases n - i,
    {
        if fold_char(prefix.get_char(i)) != fold_char(word.get_char(i)) {
            assert(fold_ascii(prefix@[i as int]) != fold_ascii(head[i as int]));
            return false;
        }
        i += 1;
    }
    true
}

/// The character that takes away the special meaning of the next one in a
/// search pattern.
pub open spec fn escape_char() -> char {
    '\\'
}

/// The characters with a special meaning in a search pattern.
pub open spec fn is_pattern_special(c: char) -> bool {
    c == '%' || c == '_' || c == escape_char()
}

/// One character as it stands in a search pattern that matches it literally.
pub open spec fn escaped_char(c: char) -> Seq<char> {
    if is_pattern_special(c) {
        seq![escape_char(), c]
    } else {
        seq![c]
    }
}

/// A text as it stands in a search pattern that matches it literally: each
/// special character is preceded by the escape character.
pub open spec fn like_escape(text: Seq<char>) -> Seq<char>
    decreases text.len(),
{
    if text.len() == 0 {
        Seq::empty()
    } else {
        like_escape(text.drop_last()) + escaped_char(text.last())
    }
}

/// The search pattern for the words that start with `prefix`: the prefix
/// taken literally, then `%` for any rest.
pub open spec fn like_prefix_pattern(prefix: Seq<char>) -> Seq<char> {
    like_escape(prefix).push('%')
}

/// Writes the search pattern for the words that start with `prefix`.
pub fn prefix_pattern(prefix: &str) -> (pattern: String)
    ensures
        pattern@ == like_prefix_pattern(prefix@),
{
    let n = prefix.unicode_len();
    let mut pattern = String::new();
    let mut i: usize = 0;
    while i < n
        invariant
            i <= n,
            n == prefix@.len(),
            pattern@ == like_escape(prefix@.take(i as int)),
        decreases n - i,
    {
        let c = prefix.get_char(i);
        proof {
            let next = prefix@.take(i + 1);
            assert(next.drop_last() =~= prefix@.take(i as int));
            assert(next.last() == c);
        }
        if c == '%' || c == '_' || c == '\\' {
            push_char(&mut pattern, '\\');
        }
        push_char(&mut pattern, c);
        i += 1;
    }
    assert(prefix@.take(n as int) =~= prefix@);
    push_char(&mut pattern, '%');
    pattern
}

} // verus!
