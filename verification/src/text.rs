//! Strings as sequences of characters: comparison, search and replacement.

use vstd::prelude::*;
use vstd::string::StringSliceAdditionalSpecFns;
use vstd::utf8::encode_utf8_decode_utf8;

verus! {

/// `String::push` appends one character and leaves the rest as it was.
pub assume_specification[ String::push ](s: &mut String, c: char)
    ensures
        final(s)@ == old(s)@.push(c),
;

/// The characters of a string, in order.
pub fn chars_of(s: &str) -> (chars: Vec<char>)
    ensures
        chars@ == s@,
{
    let mut chars: Vec<char> = Vec::new();
    for c in it: s.chars()
        invariant
            chars@ == it.seq().take(it.index() as int),
            it.seq() == s@,
    {
        chars.push(c);
    }
    chars
}

/// The string made of the given characters, in order.
pub fn text_of(chars: &Vec<char>) -> (s: String)
    ensures
        s@ == chars@,
{
    let mut s = String::new();
    let mut i: usize = 0;
    while i < chars.len()
        invariant
            i <= chars.len(),
            s@ == chars@.take(i as int),
        decreases chars.len() - i,
    {
        s.push(chars[i]);
        i += 1;
    }
    s
}

/// Whether two strings hold the same characters.
pub fn same(a: &str, b: &str) -> (r: bool)
    ensures
        r == (a@ == b@),
{
    let x = a.as_bytes();
    let y = b.as_bytes();
    if x.len() != y.len() {
        return false;
    }
    let mut i: usize = 0;
    while i < x.len()
        invariant
            i <= x.len(),
            x.len() == y.len(),
            x@ == a.spec_bytes(),
            y@ == b.spec_bytes(),
            forall|j: int| 0 <= j < i ==> x@[j] == y@[j],
        decreases x.len() - i,
    {
        if x[i] != y[i] {
            return false;
        }
        i += 1;
    }
    proof {
        assert(x@ =~= y@);
        encode_utf8_decode_utf8(a@);
        encode_utf8_decode_utf8(b@);
    }
    true
}

/// Whether two character vectors hold the same characters.
pub fn same_chars(a: &Vec<char>, b: &Vec<char>) -> (r: bool)
    ensures
        r == (a@ == b@),
{
    if a.len() != b.len() {
        return false;
    }
    let mut i: usize = 0;
    while i < a.len()
        invariant
            i <= a.len(),
            a.len() == b.len(),
            forall|j: int| 0 <= j < i ==> a@[j] == b@[j],
        decreases a.len() - i,
    {
        if a[i] != b[i] {
            return false;
        }
        i += 1;
    }
    assert(a@ =~= b@);
    true
}

/// Appends every character of `tail` to `out`.
pub fn extend_chars(out: &mut Vec<char>, tail: &Vec<char>)
    ensures
        final(out)@ == old(out)@ + tail@,
{
    let mut i: usize = 0;
    while i < tail.len()
        invariant
            i <= tail.len(),
            out@ == old(out)@ + tail@.take(i as int),
        decreases tail.len() - i,
    {
        out.push(tail[i]);
        i += 1;
        assert(tail@.take(i as int) =~= tail@.take(i - 1).push(tail@[i - 1]));
        assert(out@ =~= old(out)@ + tail@.take(i as int));
    }
    assert(tail@.take(tail.len() as int) =~= tail@);
}

/// `pattern` stands in `text` at index `at`.
pub open spec fn occurs_at(text: Seq<char>, pattern: Seq<char>, at: int) -> bool {
    &&& 0 <= at
    &&& at + pattern.len() <= text.len()
    &&& text.subrange(at, at + pattern.len()) == pattern
}

/// `pattern` stands somewhere in `text`.
pub open spec fn occurs_in(text: Seq<char>, pattern: Seq<char>) -> bool {
    exists|at: int| occurs_at(text, pattern, at)
}

/// Whether `pattern` stands in `text` at index `at`.
pub fn matches_at(text: &Vec<char>, pattern: &Vec<char>, at: usize) -> (r: bool)
    ensures
        r == occurs_at(text@, pattern@, at as int),
{
    if at > text.len() || pattern.len() > text.len() - at {
        return false;
    }
    let mut k: usize = 0;
    while k < pattern.len()
        invariant
            k <= pattern.len(),
            at + pattern.len() <= text.len(),
            forall|j: int| 0 <= j < k ==> text@[at + j] == pattern@[j],
        decreases pattern.len() - k,
    {
        if text[at + k] != pattern[k] {
            assert(text@.subrange(at as int, at + pattern.len())[k as int] != pattern@[k as int]);
            return false;
        }
        k += 1;
    }
    assert(text@.subrange(at as int, at + pattern.len()) =~= pattern@);
    true
}

/// `text` from index `from` on, with every occurrence of `pattern` replaced by
/// `replacement`: occurrences are taken from the left and do not overlap, and
/// the replacement is not searched again. An empty pattern occurs nowhere.
pub open spec fn replaced_from(
    text: Seq<char>,
    pattern: Seq<char>,
    replacement: Seq<char>,
    from: int,
) -> Seq<char>
    decreases text.len() - from,
{
    if from < 0 || from >= text.len() {
        Seq::empty()
    } else if pattern.len() > 0 && occurs_at(text, pattern, from) {
        replacement + replaced_from(text, pattern, replacement, from + pattern.len())
    } else {
        seq![text[from]] + replaced_from(text, pattern, replacement, from + 1)
    }
}

/// `text` with every occurrence of `pattern` replaced by `replacement`.
pub open spec fn replaced(text: Seq<char>, pattern: Seq<char>, replacement: Seq<char>) -> Seq<char> {
    replaced_from(text, pattern, replacement, 0)
}

/// Replaces every occurrence of `pattern` in `text` by `replacement`.
pub fn replace_all(text: &Vec<char>, pattern: &Vec<char>, replacement: &Vec<char>) -> (out: Vec<char>)
    ensures
        out@ == replaced(text@, pattern@, replacement@),
{
    let mut out: Vec<char> = Vec::new();
    let mut i: usize = 0;
    while i < text.len()
        invariant
            i <= text.len(),
            out@ + replaced_from(text@, pattern@, replacement@, i as int) == replaced(
                text@,
                pattern@,
                replacement@,
            ),
        decreases text.len() - i,
    {
        let ghost before = out@;
        let ghost rest = replaced_from(text@, pattern@, replacement@, i as int);
        if pattern.len() > 0 && matches_at(text, pattern, i) {
            extend_chars(&mut out, replacement);
            i += pattern.len();
            assert(out@ + replaced_from(text@, pattern@, replacement@, i as int) =~= before + rest);
        } else {
            out.push(text[i]);
            i += 1;
            assert(out@ + replaced_from(text@, pattern@, replacement@, i as int) =~= before + rest);
        }
    }
    assert(out@ + Seq::<char>::empty() =~= out@);
    out
}

/// A stretch of text in which no occurrence of the pattern begins is copied.
pub proof fn lemma_replaced_from_without_occurrence(
    text: Seq<char>,
    pattern: Seq<char>,
    replacement: Seq<char>,
    from: int,
    stop: int,
)
    requires
        0 <= from <= stop <= text.len(),
        forall|at: int| from <= at < stop ==> !occurs_at(text, pattern, at),
    ensures
        replaced_from(text, pattern, replacement, from) == text.subrange(from, stop)
            + replaced_from(text, pattern, replacement, stop),
    decreases stop - from,
{
    let tail = replaced_from(text, pattern, replacement, stop);
    if from < stop {
        lemma_replaced_from_without_occurrence(text, pattern, replacement, from + 1, stop);
        assert(seq![text[from]] + (text.subrange(from + 1, stop) + tail) =~= text.subrange(
            from,
            stop,
        ) + tail);
    } else {
        assert(text.subrange(from, stop) + tail =~= tail);
    }
}

/// What follows a prefix is searched as if the prefix were not there.
pub proof fn lemma_replaced_from_shift(
    pre: Seq<char>,
    s: Seq<char>,
    pattern: Seq<char>,
    replacement: Seq<char>,
    j: int,
)
    requires
        0 <= j <= s.len(),
    ensures
        replaced_from(pre + s, pattern, replacement, pre.len() + j) == replaced_from(
            s,
            pattern,
            replacement,
            j,
        ),
    decreases s.len() - j,
{
    let w = pre + s;
    if j < s.len() {
        assert(w[pre.len() + j] == s[j]);
        if j + pattern.len() <= s.len() {
            assert(w.subrange(pre.len() + j, pre.len() + j + pattern.len()) =~= s.subrange(
                j,
                j + pattern.len(),
            ));
        }
        if pattern.len() > 0 && occurs_at(s, pattern, j) {
            lemma_replaced_from_shift(pre, s, pattern, replacement, j + pattern.len());
        } else {
            lemma_replaced_from_shift(pre, s, pattern, replacement, j + 1);
        }
    }
}

} // verus!
