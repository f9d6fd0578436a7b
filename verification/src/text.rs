use crate::decimal::{has_no_number_char, is_number_char, is_number_text};
use vstd::prelude::*;
use vstd::string::*;

verus! {

/// The characters of `s`, one by one.
pub fn chars_of(s: &str) -> (r: Vec<char>)
    ensures
        r@ == s@,
{
    let mut out: Vec<char> = Vec::new();
    for c in it: s.chars()
        invariant
            out@ == it.seq().take(it.index() as int),
    {
        out.push(c);
    }
    out
}

/// Whether `a` and `b` hold the same characters.
pub fn same_text(a: &str, b: &str) -> (r: bool)
    ensures
        r == (a@ == b@),
{
    let left = chars_of(a);
    let right = chars_of(b);
    if left.len() != right.len() {
        return false;
    }
    let mut i: usize = 0;
    while i < left.len()
        invariant
            left@ == a@,
            right@ == b@,
            left.len() == right.len(),
            i <= left.len(),
            forall|k: int| 0 <= k < i ==> left@[k] == right@[k],
        decreases left.len() - i,
    {
        if left[i] != right[i] {
            return false;
        }
        i += 1;
    }
    assert(left@ =~= right@);
    true
}

/// What `text` says as a truth value: `true` or `false`, spelled exactly so.
pub open spec fn parsed_bool(text: Seq<char>) -> Option<bool> {
    if text == seq!['t', 'r', 'u', 'e'] {
        Some(true)
    } else if text == seq!['f', 'a', 'l', 's', 'e'] {
        Some(false)
    } else {
        None
    }
}

/// Reads `text` as a truth value.
pub fn parse_bool(text: &str) -> (r: Option<bool>)
    ensures
        r == parsed_bool(text@),
{
    proof {
        reveal_strlit("true");
        reveal_strlit("false");
        assert("true"@ =~= seq!['t', 'r', 'u', 'e']);
        assert("false"@ =~= seq!['f', 'a', 'l', 's', 'e']);
    }
    if same_text(text, "true") {
        Some(true)
    } else if same_text(text, "false") {
        Some(false)
    } else {
        None
    }
}

/// Whether `pattern` stands in `text` at position `at`.
pub open spec fn occurs_at(text: Seq<char>, at: int, pattern: Seq<char>) -> bool {
    0 <= at && at + pattern.len() <= text.len() && text.subrange(at, at + pattern.len())
        == pattern
}

/// Whether `pattern` stands somewhere in `text`.
pub open spec fn occurs_in(text: Seq<char>, pattern: Seq<char>) -> bool {
    exists|at: int| occurs_at(text, at, pattern)
}

/// `text` with each occurrence of `pattern` replaced by `replacement`. Occurrences are taken
/// from the left and do not overlap; an empty pattern replaces nothing.
pub open spec fn substituted(
    text: Seq<char>,
    pattern: Seq<char>,
    replacement: Seq<char>,
) -> Seq<char>
    decreases text.len(),
{
    if pattern.len() == 0 || text.len() == 0 {
        text
    } else if occurs_at(text, 0, pattern) {
        replacement + substituted(text.skip(pattern.len() as int), pattern, replacement)
    } else {
        seq![text[0]] + substituted(text.skip(1), pattern, replacement)
    }
}

/// Whether `pattern` stands in `text` at position `at`.
fn found_at(text: &Vec<char>, at: usize, pattern: &Vec<char>) -> (r: bool)
    requires
        at <= text.len(),
    ensures
        r == occurs_at(text@, at as int, pattern@),
{
    if pattern.len() > text.len() - at {
        return false;
    }
    let mut k: usize = 0;
    while k < pattern.len()
        invariant
            at + pattern.len() <= text.len(),
            k <= pattern.len(),
            forall|j: int| 0 <= j < k ==> text@[at + j] == pattern@[j],
        decreases pattern.len() - k,
    {
        if text[at + k] != pattern[k] {
            assert(text@.subrange(at as int, at + pattern.len())[k as int] != pattern@[k as int]);
            return false;
        }
        k += 1;
    }
    assert(text@.subrange(at as int, at + pattern.len()) =~= pattern@);
    true
}

/// Whether `pattern` stands somewhere in `text`.
pub fn contains_text(text: &str, pattern: &str) -> (r: bool)
    ensures
        r == occurs_in(text@, pattern@),
{
    let haystack = chars_of(text);
    let needle = chars_of(pattern);
    let mut at: usize = 0;
    loop
        invariant
            haystack@ == text@,
            needle@ == pattern@,
            at <= haystack.len(),
            forall|k: int| 0 <= k < at ==> !occurs_at(text@, k, pattern@),
        decreases haystack.len() - at,
    {
        if found_at(&haystack, at, &needle) {
            return true;
        }
        if at == haystack.len() {
            return false;
        }
        at += 1;
    }
}

/// Copies `text` with each occurrence of `pattern` replaced by `replacement`.
pub fn replace_all(text: &str, pattern: &str, replacement: &str) -> (r: String)
    ensures
        r@ == substituted(text@, pattern@, replacement@),
{
    let source = chars_of(text);
    let needle = chars_of(pattern);
    let mut out = String::new();
    if needle.len() == 0 {
        out.append(text);
        assert(out@ =~= text@);
        return out;
    }
    let mut at: usize = 0;
    assert(text@.skip(0) =~= text@);
    assert(out@ + substituted(text@, pattern@, replacement@) =~= substituted(
        text@,
        pattern@,
        replacement@,
    ));
    while at < source.len()
        invariant
            source@ == text@,
            needle@ == pattern@,
            needle.len() > 0,
            at <= source.len(),
            substituted(text@, pattern@, replacement@) == out@ + substituted(
                text@.skip(at as int),
                pattern@,
                replacement@,
            ),
        decreases source.len() - at,
    {
        let ghost rest = text@.skip(at as int);
        if found_at(&source, at, &needle) {
            assert(occurs_at(rest, 0, pattern@)) by {
                assert(rest.subrange(0, pattern@.len() as int) =~= text@.subrange(
                    at as int,
                    at + pattern@.len(),
                ));
            }
            out.append(replacement);
            at += needle.len();
            assert(rest.skip(pattern@.len() as int) =~= text@.skip(at as int));
        } else {
            assert(!occurs_at(rest, 0, pattern@)) by {
                if at + pattern@.len() <= text@.len() {
                    assert(rest.subrange(0, pattern@.len() as int) =~= text@.subrange(
                        at as int,
                        at + pattern@.len(),
                    ));
                }
            }
            let piece = text.substring_char(at, at + 1);
            assert(piece@ =~= seq![rest[0]]);
            out.append(piece);
            at += 1;
            assert(rest.skip(1) =~= text@.skip(at as int));
        }
    }
    assert(text@.skip(at as int).len() == 0);
    assert(out@ =~= substituted(text@, pattern@, replacement@));
    out
}

/// What stands nowhere in a text stands nowhere in its tail.
pub proof fn lemma_tail_holds_no_more(text: Seq<char>, from: int, word: Seq<char>)
    requires
        0 <= from <= text.len(),
        !occurs_in(text, word),
    ensures
        !occurs_in(text.skip(from), word),
{
    assert forall|at: int| !occurs_at(text.skip(from), at, word) by {
        if occurs_at(text.skip(from), at, word) {
            assert(text.subrange(from + at, from + at + word.len()) =~= text.skip(from).subrange(
                at,
                at + word.len(),
            ));
            assert(occurs_at(text, from + at, word));
        }
    }
}

/// Where numbers are put in, a word without digits and minus signs at the beginning of the
/// result stood at the beginning of the text already.
pub proof fn lemma_beginning_was_there(
    text: Seq<char>,
    pattern: Seq<char>,
    replacement: Seq<char>,
    word: Seq<char>,
)
    requires
        replacement.len() > 0,
        is_number_text(replacement),
        has_no_number_char(word),
        occurs_at(substituted(text, pattern, replacement), 0, word),
    ensures
        occurs_at(text, 0, word),
    decreases word.len(),
{
    let result = substituted(text, pattern, replacement);
    if word.len() == 0 {
        assert(text.subrange(0, 0) =~= word);
    } else if pattern.len() == 0 || text.len() == 0 {
    } else {
        assert(result.subrange(0, word.len() as int)[0] == word[0]);
        if occurs_at(text, 0, pattern) {
            assert(result[0] == replacement[0]);
            assert(is_number_char(replacement[0]));
            assert(!is_number_char(word[0]));
        } else {
            let rest = substituted(text.skip(1), pattern, replacement);
            assert(result == seq![text[0]] + rest);
            assert(result[0] == text[0]);
            let tail = word.skip(1);
            assert(rest.subrange(0, tail.len() as int) =~= tail) by {
                assert forall|i: int| 0 <= i < tail.len() implies rest[i] == tail[i] by {
                    assert(result.subrange(0, word.len() as int)[i + 1] == word[i + 1]);
                    assert(result[i + 1] == rest[i]);
                }
            }
            assert(has_no_number_char(tail)) by {
                assert forall|i: int| 0 <= i < tail.len() implies !is_number_char(
                    #[trigger] tail[i],
                ) by {
                    assert(tail[i] == word[i + 1]);
                }
            }
            lemma_beginning_was_there(text.skip(1), pattern, replacement, tail);
            assert(text.subrange(0, word.len() as int) =~= word) by {
                assert forall|i: int| 0 <= i < word.len() implies text[i] == word[i] by {
                    if i > 0 {
                        assert(text.skip(1).subrange(0, tail.len() as int)[i - 1] == tail[i - 1]);
                    }
                }
            }
        }
    }
}

/// Where numbers are put in, no word without digits and minus signs comes into being: what
/// stood nowhere in the text stands nowhere in the result.
pub proof fn lemma_substitution_makes_no_word(
    text: Seq<char>,
    pattern: Seq<char>,
    replacement: Seq<char>,
    word: Seq<char>,
)
    requires
        replacement.len() > 0,
        is_number_text(replacement),
        word.len() > 0,
        has_no_number_char(word),
        !occurs_in(text, word),
    ensures
        !occurs_in(substituted(text, pattern, replacement), word),
    decreases text.len(),
{
    let result = substituted(text, pattern, replacement);
    if pattern.len() == 0 || text.len() == 0 {
    } else if occurs_at(text, 0, pattern) {
        let rest = substituted(text.skip(pattern.len() as int), pattern, replacement);
        lemma_tail_holds_no_more(text, pattern.len() as int, word);
        lemma_substitution_makes_no_word(
            text.skip(pattern.len() as int),
            pattern,
            replacement,
            word,
        );
        assert forall|at: int| !occurs_at(result, at, word) by {
            if occurs_at(result, at, word) {
                assert(result.subrange(at, at + word.len())[0] == word[0]);
                if at < replacement.len() {
                    assert(result[at] == replacement[at]);
                    assert(is_number_char(replacement[at]));
                    assert(!is_number_char(word[0]));
                } else {
                    assert(rest.subrange(at - replacement.len(), at - replacement.len() + word.len())
                        =~= result.subrange(at, at + word.len()));
                    assert(occurs_at(rest, at - replacement.len(), word));
                }
            }
        }
    } else {
        let rest = substituted(text.skip(1), pattern, replacement);
        lemma_tail_holds_no_more(text, 1, word);
        lemma_substitution_makes_no_word(text.skip(1), pattern, replacement, word);
        assert forall|at: int| !occurs_at(result, at, word) by {
            if occurs_at(result, at, word) {
                if at == 0 {
                    lemma_beginning_was_there(text, pattern, replacement, word);
                    assert(occurs_at(text, 0, word));
                } else {
                    assert(rest.subrange(at - 1, at - 1 + word.len()) =~= result.subrange(
                        at,
                        at + word.len(),
                    ));
                    assert(occurs_at(rest, at - 1, word));
                }
            }
        }
    }
}

/// Where numbers are put in for a pattern without digits and minus signs, the pattern is
/// gone: it stands nowhere in the result.
pub proof fn lemma_substitution_leaves_no_pattern(
    text: Seq<char>,
    pattern: Seq<char>,
    replacement: Seq<char>,
)
    requires
        pattern.len() > 0,
        replacement.len() > 0,
        is_number_text(replacement),
        has_no_number_char(pattern),
    ensures
        !occurs_in(substituted(text, pattern, replacement), pattern),
    decreases text.len(),
{
    let result = substituted(text, pattern, replacement);
    if text.len() == 0 {
    } else if occurs_at(text, 0, pattern) {
        let rest = substituted(text.skip(pattern.len() as int), pattern, replacement);
        lemma_substitution_leaves_no_pattern(
            text.skip(pattern.len() as int),
            pattern,
            replacement,
        );
        assert forall|at: int| !occurs_at(result, at, pattern) by {
            if occurs_at(result, at, pattern) {
                assert(result.subrange(at, at + pattern.len())[0] == pattern[0]);
                if at < replacement.len() {
                    assert(result[at] == replacement[at]);
                    assert(is_number_char(replacement[at]));
                    assert(!is_number_char(pattern[0]));
                } else {
                    assert(rest.subrange(
                        at - replacement.len(),
                        at - replacement.len() + pattern.len(),
                    ) =~= result.subrange(at, at + pattern.len()));
                    assert(occurs_at(rest, at - replacement.len(), pattern));
                }
            }
        }
    } else {
        let rest = substituted(text.skip(1), pattern, replacement);
        lemma_substitution_leaves_no_pattern(text.skip(1), pattern, replacement);
        assert forall|at: int| !occurs_at(result, at, pattern) by {
            if occurs_at(result, at, pattern) {
                if at == 0 {
                    lemma_beginning_was_there(text, pattern, replacement, pattern);
                } else {
                    assert(rest.subrange(at - 1, at - 1 + pattern.len()) =~= result.subrange(
                        at,
                        at + pattern.len(),
                    ));
                    assert(occurs_at(rest, at - 1, pattern));
                }
            }
        }
    }
}

} // verus!
