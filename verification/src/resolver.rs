//! Resolution of the placeholders of a command template.
//!
//! A placeholder is written `#{name}`, where the name is not empty and holds
//! no brace. Each placeholder is looked up once, where it stands: a value
//! given by the user wins if it is not empty, then the default that the
//! contract gives to the argument of that name; a placeholder with neither
//! stays as it is. Substituted text is not scanned for placeholders again. At
//! the end every `#{location}` is replaced by the working directory, which no
//! user value or default can override.

use crate::api::manage_inject::PayloadArg;
use crate::text::{
    chars_of, extend_chars, lemma_replaced_from_shift, lemma_replaced_from_without_occurrence,
    occurs_at, occurs_in, replace_all, replaced, replaced_from, same_chars, text_of,
};
use vstd::prelude::*;

verus! {

/// A value that the user gave for the argument named `key`.
#[derive(Debug)]
pub struct UserValue {
    pub key: String,
    pub value: String,
}

/// The name whose placeholder stands for the working directory.
pub open spec fn reserved_name() -> Seq<char> {
    "location"@
}

/// The placeholder that stands for the working directory.
pub open spec fn location_token() -> Seq<char> {
    "#{location}"@
}

/// The placeholder of the given name.
pub open spec fn token(name: Seq<char>) -> Seq<char> {
    seq!['#', '{'] + name + seq!['}']
}

/// A name is not empty and holds no brace.
pub open spec fn is_name(name: Seq<char>) -> bool {
    &&& name.len() > 0
    &&& forall|k: int| 0 <= k < name.len() ==> name[k] != '{' && name[k] != '}'
}

/// The index of the first brace of `text` at or after `from`, or the length
/// of `text` if there is none; an index beyond the text stands for itself.
pub open spec fn name_end(text: Seq<char>, from: int) -> int
    decreases text.len() - from,
{
    if from < 0 || from >= text.len() {
        from
    } else if text[from] == '{' || text[from] == '}' {
        from
    } else {
        name_end(text, from + 1)
    }
}

/// A placeholder begins at index `at` of `text`.
pub open spec fn placeholder_at(text: Seq<char>, at: int) -> bool {
    &&& 0 <= at
    &&& at + 2 < text.len()
    &&& text[at] == '#'
    &&& text[at + 1] == '{'
    &&& at + 2 < name_end(text, at + 2) < text.len()
    &&& text[name_end(text, at + 2)] == '}'
}

/// The name of the placeholder that begins at `at`.
pub open spec fn placeholder_name(text: Seq<char>, at: int) -> Seq<char> {
    text.subrange(at + 2, name_end(text, at + 2))
}

/// The index just behind the placeholder that begins at `at`.
pub open spec fn placeholder_end(text: Seq<char>, at: int) -> int {
    name_end(text, at + 2) + 1
}

/// The first value, from index `from` on, that the user gave for `name` and that is not empty.
pub open spec fn user_value_from(users: Seq<UserValue>, name: Seq<char>, from: int) -> Option<Seq<char>>
    decreases users.len() - from,
{
    if from < 0 || from >= users.len() {
        None
    } else if users[from].key@ == name && users[from].value@.len() > 0 {
        Some(users[from].value@)
    } else {
        user_value_from(users, name, from + 1)
    }
}

/// The default of the first argument, from index `from` on, that is named `name` and has one.
pub open spec fn default_value_from(defaults: Seq<PayloadArg>, name: Seq<char>, from: int) -> Option<Seq<char>>
    decreases defaults.len() - from,
{
    if from < 0 || from >= defaults.len() {
        None
    } else if defaults[from].key@ == name && defaults[from].default_value is Some {
        Some(defaults[from].default_value->0@)
    } else {
        default_value_from(defaults, name, from + 1)
    }
}

/// The non-empty value that the user gave for `name`, if any.
pub open spec fn user_value(users: Seq<UserValue>, name: Seq<char>) -> Option<Seq<char>> {
    user_value_from(users, name, 0)
}

/// The default that the contract gives to `name`, if any.
pub open spec fn default_value(defaults: Seq<PayloadArg>, name: Seq<char>) -> Option<Seq<char>> {
    default_value_from(defaults, name, 0)
}

/// What a placeholder of the given name is replaced with, if anything.
pub open spec fn value_for(users: Seq<UserValue>, defaults: Seq<PayloadArg>, name: Seq<char>) -> Option<Seq<char>> {
    if name == reserved_name() {
        None
    } else if user_value(users, name) is Some {
        user_value(users, name)
    } else {
        default_value(defaults, name)
    }
}

/// What stands in the result for a placeholder of the given name.
pub open spec fn rendering(users: Seq<UserValue>, defaults: Seq<PayloadArg>, name: Seq<char>) -> Seq<char> {
    match value_for(users, defaults, name) {
        Some(value) => value,
        None => token(name),
    }
}

/// `text` from index `from` on, each placeholder replaced by its rendering.
pub open spec fn substituted_from(
    text: Seq<char>,
    users: Seq<UserValue>,
    defaults: Seq<PayloadArg>,
    from: int,
) -> Seq<char>
    decreases text.len() - from,
    via substituted_from_decreases
{
    if from < 0 || from >= text.len() {
        Seq::empty()
    } else if placeholder_at(text, from) {
        rendering(users, defaults, placeholder_name(text, from)) + substituted_from(
            text,
            users,
            defaults,
            placeholder_end(text, from),
        )
    } else {
        seq![text[from]] + substituted_from(text, users, defaults, from + 1)
    }
}

/// A placeholder ends behind the place where it begins.
#[via_fn]
proof fn substituted_from_decreases(
    text: Seq<char>,
    users: Seq<UserValue>,
    defaults: Seq<PayloadArg>,
    from: int,
) {
}

/// `text` with each placeholder replaced by its rendering.
pub open spec fn substituted(text: Seq<char>, users: Seq<UserValue>, defaults: Seq<PayloadArg>) -> Seq<char> {
    substituted_from(text, users, defaults, 0)
}

/// The resolved form of a template.
pub open spec fn resolution(
    template: Seq<char>,
    users: Seq<UserValue>,
    defaults: Seq<PayloadArg>,
    working_dir: Seq<char>,
) -> Seq<char> {
    replaced(substituted(template, users, defaults), location_token(), working_dir)
}

/// The index of the first brace at or after `from`, or the length of the text.
fn scan_name_end(text: &Vec<char>, from: usize) -> (end: usize)
    requires
        from <= text.len(),
    ensures
        end == name_end(text@, from as int),
        from <= end <= text.len(),
{
    let mut end: usize = from;
    while end < text.len() && text[end] != '{' && text[end] != '}'
        invariant
            from <= end <= text.len(),
            name_end(text@, end as int) == name_end(text@, from as int),
        decreases text.len() - end,
    {
        end += 1;
    }
    end
}

/// The index just behind the placeholder that begins at `at`, if one begins there.
fn placeholder_end_at(text: &Vec<char>, at: usize) -> (r: Option<usize>)
    requires
        at < text.len(),
    ensures
        r is Some == placeholder_at(text@, at as int),
        r matches Some(end) ==> end == placeholder_end(text@, at as int) && at + 4 <= end
            <= text.len(),
{
    if text.len() - at < 4 {
        return None;
    }
    if text[at] != '#' || text[at + 1] != '{' {
        return None;
    }
    let end = scan_name_end(text, at + 2);
    if end == at + 2 || end >= text.len() || text[end] != '}' {
        return None;
    }
    Some(end + 1)
}

/// The first value that the user gave for `name` and that is not empty.
fn find_user_value<'a>(users: &'a Vec<UserValue>, name: &Vec<char>) -> (r: Option<&'a String>)
    ensures
        match r {
            Some(value) => user_value(users@, name@) == Some(value@),
            None => user_value(users@, name@) is None,
        },
{
    let mut i: usize = 0;
    while i < users.len()
        invariant
            i <= users.len(),
            user_value(users@, name@) == user_value_from(users@, name@, i as int),
        decreases users.len() - i,
    {
        let key = chars_of(users[i].key.as_str());
        if same_chars(&key, name) && !users[i].value.as_str().is_empty() {
            return Some(&users[i].value);
        }
        i += 1;
    }
    None
}

/// The default of the first argument that is named `name` and has one.
fn find_default_value<'a>(defaults: &'a Vec<PayloadArg>, name: &Vec<char>) -> (r: Option<&'a String>)
    ensures
        match r {
            Some(value) => default_value(defaults@, name@) == Some(value@),
            None => default_value(defaults@, name@) is None,
        },
{
    let mut i: usize = 0;
    while i < defaults.len()
        invariant
            i <= defaults.len(),
            default_value(defaults@, name@) == default_value_from(defaults@, name@, i as int),
        decreases defaults.len() - i,
    {
        let key = chars_of(defaults[i].key.as_str());
        if same_chars(&key, name) {
            match &defaults[i].default_value {
                Some(value) => {
                    return Some(value);
                },
                None => {},
            }
        }
        i += 1;
    }
    None
}

/// Replaces each placeholder of `text` that has a value by that value.
fn substitute(text: &Vec<char>, users: &Vec<UserValue>, defaults: &Vec<PayloadArg>) -> (out: Vec<char>)
    ensures
        out@ == substituted(text@, users@, defaults@),
{
    let reserved = chars_of("location");
    let mut out: Vec<char> = Vec::new();
    let mut i: usize = 0;
    while i < text.len()
        invariant
            i <= text.len(),
            reserved@ == reserved_name(),
            out@ + substituted_from(text@, users@, defaults@, i as int) == substituted(
                text@,
                users@,
                defaults@,
            ),
        decreases text.len() - i,
    {
        let ghost before = out@;
        let ghost rest = substituted_from(text@, users@, defaults@, i as int);
        match placeholder_end_at(text, i) {
            Some(end) => {
                let mut name: Vec<char> = Vec::new();
                let mut k: usize = i + 2;
                while k < end - 1
                    invariant
                        i + 2 <= k <= end - 1,
                        end <= text.len(),
                        name@ == text@.subrange(i + 2, k as int),
                    decreases end - k,
                {
                    name.push(text[k]);
                    k += 1;
                    assert(name@ =~= text@.subrange(i + 2, k as int));
                }
                let mut value: Option<&String> = None;
                if !same_chars(&name, &reserved) {
                    value = find_user_value(users, &name);
                    if value.is_none() {
                        value = find_default_value(defaults, &name);
                    }
                }
                match value {
                    Some(v) => {
                        let chars = chars_of(v.as_str());
                        extend_chars(&mut out, &chars);
                    },
                    None => {
                        out.push('#');
                        out.push('{');
                        extend_chars(&mut out, &name);
                        out.push('}');
                    },
                }
                assert(out@ =~= before + rendering(users@, defaults@, name@));
                i = end;
                assert(out@ + substituted_from(text@, users@, defaults@, i as int) =~= before
                    + rest);
            },
            None => {
                out.push(text[i]);
                i += 1;
                assert(out@ + substituted_from(text@, users@, defaults@, i as int) =~= before
                    + rest);
            },
        }
    }
    assert(out@ + Seq::<char>::empty() =~= out@);
    out
}

/// Resolves the placeholders of `template`: a placeholder takes the value
/// the user gave for its name if that is not empty, else the default the
/// contract gives to the argument of that name, else it stays as it is; then
/// every `#{location}` is replaced by `working_dir`.
pub fn resolve(
    template: &str,
    user_values: &Vec<UserValue>,
    contract_defaults: &Vec<PayloadArg>,
    working_dir: &str,
) -> (resolved: String)
    ensures
        resolved@ == resolution(template@, user_values@, contract_defaults@, working_dir@),
{
    let text = chars_of(template);
    let filled = substitute(&text, user_values, contract_defaults);
    let pattern = chars_of("#{location}");
    let dir = chars_of(working_dir);
    let out = replace_all(&filled, &pattern, &dir);
    text_of(&out)
}

/// Between `from` and the end of the name that begins there stands no brace.
pub proof fn lemma_name_end(text: Seq<char>, from: int)
    requires
        0 <= from <= text.len(),
    ensures
        from <= name_end(text, from) <= text.len(),
        forall|k: int| from <= k < name_end(text, from) ==> text[k] != '{' && text[k] != '}',
        name_end(text, from) < text.len() ==> (text[name_end(text, from)] == '{' || text[name_end(
            text,
            from,
        )] == '}'),
    decreases text.len() - from,
{
    if from < text.len() && !(text[from] == '{' || text[from] == '}') {
        lemma_name_end(text, from + 1);
    }
}

/// A run of characters without a brace is passed over up to the brace behind it.
proof fn lemma_name_end_over(text: Seq<char>, from: int, stop: int)
    requires
        0 <= from <= stop < text.len(),
        forall|k: int| from <= k < stop ==> text[k] != '{' && text[k] != '}',
        text[stop] == '{' || text[stop] == '}',
    ensures
        name_end(text, from) == stop,
    decreases stop - from,
{
    if from < stop {
        lemma_name_end_over(text, from + 1, stop);
    }
}

/// What follows a prefix is scanned as if the prefix were not there.
proof fn lemma_name_end_shift(pre: Seq<char>, s: Seq<char>, j: int)
    requires
        0 <= j <= s.len(),
    ensures
        name_end(pre + s, pre.len() + j) == pre.len() + name_end(s, j),
    decreases s.len() - j,
{
    if j < s.len() {
        assert((pre + s)[pre.len() + j] == s[j]);
        if !(s[j] == '{' || s[j] == '}') {
            lemma_name_end_shift(pre, s, j + 1);
        }
    }
}

/// What follows a prefix holds the placeholders that it holds alone.
proof fn lemma_placeholder_shift(pre: Seq<char>, s: Seq<char>, j: int)
    requires
        0 <= j <= s.len(),
    ensures
        placeholder_at(pre + s, pre.len() + j) == placeholder_at(s, j),
        placeholder_at(s, j) ==> placeholder_end(pre + s, pre.len() + j) == pre.len()
            + placeholder_end(s, j),
        placeholder_at(s, j) ==> placeholder_name(pre + s, pre.len() + j) == placeholder_name(s, j),
{
    let w = pre + s;
    if j + 2 <= s.len() {
        lemma_name_end_shift(pre, s, j + 2);
        lemma_name_end(s, j + 2);
        assert(w[pre.len() + j] == s[j]);
        assert(w[pre.len() + j + 1] == s[j + 1]);
        let e = name_end(s, j + 2);
        if e < s.len() {
            assert(w[pre.len() + e] == s[e]);
        }
        if placeholder_at(s, j) {
            assert(w.subrange(pre.len() + j + 2, pre.len() + e) =~= s.subrange(j + 2, e));
        }
    }
}

/// What follows a prefix is filled in as if the prefix were not there.
proof fn lemma_substituted_shift(
    pre: Seq<char>,
    s: Seq<char>,
    users: Seq<UserValue>,
    defaults: Seq<PayloadArg>,
    j: int,
)
    requires
        0 <= j <= s.len(),
    ensures
        substituted_from(pre + s, users, defaults, pre.len() + j) == substituted_from(
            s,
            users,
            defaults,
            j,
        ),
    decreases s.len() - j,
{
    if j < s.len() {
        lemma_placeholder_shift(pre, s, j);
        assert((pre + s)[pre.len() + j] == s[j]);
        if placeholder_at(s, j) {
            lemma_name_end(s, j + 2);
            lemma_substituted_shift(pre, s, users, defaults, placeholder_end(s, j));
        } else {
            lemma_substituted_shift(pre, s, users, defaults, j + 1);
        }
    }
}

/// A name that runs into a following placeholder is closed by nothing.
proof fn lemma_name_end_prefix(pre: Seq<char>, rest: Seq<char>, k: int)
    requires
        0 <= k <= pre.len(),
        rest.len() >= 2,
        rest[0] == '#',
        rest[1] == '{',
    ensures
        name_end(pre, k) < pre.len() ==> name_end(pre + rest, k) == name_end(pre, k),
        name_end(pre, k) >= pre.len() ==> name_end(pre + rest, k) == pre.len() + 1,
    decreases pre.len() - k,
{
    let w = pre + rest;
    if k < pre.len() {
        assert(w[k] == pre[k]);
        if !(pre[k] == '{' || pre[k] == '}') {
            lemma_name_end_prefix(pre, rest, k + 1);
        }
    } else {
        assert(w[k] == rest[0]);
        assert(w[k + 1] == rest[1]);
        lemma_name_end_over(w, k, k + 1);
    }
}

/// What stands before a placeholder holds the placeholders that it holds alone.
proof fn lemma_placeholder_prefix(pre: Seq<char>, rest: Seq<char>, i: int)
    requires
        0 <= i < pre.len(),
        rest.len() >= 2,
        rest[0] == '#',
        rest[1] == '{',
    ensures
        placeholder_at(pre + rest, i) == placeholder_at(pre, i),
        placeholder_at(pre, i) ==> placeholder_end(pre + rest, i) == placeholder_end(pre, i),
        placeholder_at(pre, i) ==> placeholder_end(pre, i) <= pre.len(),
        placeholder_at(pre, i) ==> placeholder_name(pre + rest, i) == placeholder_name(pre, i),
{
    let w = pre + rest;
    assert(w[i] == pre[i]);
    if i + 2 <= pre.len() {
        assert(w[i + 1] == pre[i + 1]);
        lemma_name_end_prefix(pre, rest, i + 2);
        lemma_name_end(pre, i + 2);
        let e = name_end(pre, i + 2);
        if e < pre.len() {
            assert(w[e] == pre[e]);
            assert(w.subrange(i + 2, e) =~= pre.subrange(i + 2, e));
        } else {
            assert(w[pre.len() as int + 1] == rest[1]);
        }
    } else {
        assert(w[i + 1] == rest[0]);
    }
}

/// What stands before a placeholder is filled in as if it stood alone.
proof fn lemma_substituted_prefix(
    pre: Seq<char>,
    rest: Seq<char>,
    users: Seq<UserValue>,
    defaults: Seq<PayloadArg>,
    i: int,
)
    requires
        0 <= i <= pre.len(),
        rest.len() >= 2,
        rest[0] == '#',
        rest[1] == '{',
    ensures
        substituted_from(pre + rest, users, defaults, i) == substituted_from(
            pre,
            users,
            defaults,
            i,
        ) + substituted_from(pre + rest, users, defaults, pre.len() as int),
    decreases pre.len() - i,
{
    let w = pre + rest;
    let tail = substituted_from(w, users, defaults, pre.len() as int);
    if i < pre.len() {
        lemma_placeholder_prefix(pre, rest, i);
        assert(w[i] == pre[i]);
        if placeholder_at(pre, i) {
            let e = placeholder_end(pre, i);
            lemma_substituted_prefix(pre, rest, users, defaults, e);
            let r = rendering(users, defaults, placeholder_name(pre, i));
            assert(r + (substituted_from(pre, users, defaults, e) + tail) =~= (r
                + substituted_from(pre, users, defaults, e)) + tail);
        } else {
            lemma_substituted_prefix(pre, rest, users, defaults, i + 1);
            assert(seq![pre[i]] + (substituted_from(pre, users, defaults, i + 1) + tail) =~= (
            seq![pre[i]] + substituted_from(pre, users, defaults, i + 1)) + tail);
        }
    } else {
        assert(Seq::<char>::empty() + tail =~= tail);
    }
}

/// A placeholder is resolved where it stands, whatever stands before and
/// behind it: the text before it and the text behind it are resolved as if
/// each stood alone, and between them stands the rendering of the placeholder.
pub proof fn law_placeholder_rendered_in_place(
    before: Seq<char>,
    name: Seq<char>,
    behind: Seq<char>,
    users: Seq<UserValue>,
    defaults: Seq<PayloadArg>,
)
    requires
        is_name(name),
    ensures
        substituted(before + token(name) + behind, users, defaults) == substituted(
            before,
            users,
            defaults,
        ) + rendering(users, defaults, name) + substituted(behind, users, defaults),
{
    let tok = token(name);
    let rest = tok + behind;
    let w = before + rest;
    assert(w =~= before + tok + behind);
    assert(rest[0] == '#');
    assert(rest[1] == '{');
    lemma_substituted_prefix(before, rest, users, defaults, 0);
    // the placeholder itself
    assert forall|k: int| 2 <= k < 2 + name.len() implies rest[k] != '{' && rest[k] != '}' by {
        assert(rest[k] == name[k - 2]);
    }
    assert(rest[2 + name.len() as int] == '}');
    lemma_name_end_over(rest, 2, 2 + name.len() as int);
    assert(placeholder_at(rest, 0));
    assert(placeholder_name(rest, 0) =~= name);
    assert(placeholder_end(rest, 0) == tok.len());
    lemma_placeholder_shift(before, rest, 0);
    lemma_substituted_shift(before, rest, users, defaults, tok.len() as int);
    lemma_substituted_shift(tok, behind, users, defaults, 0);
    assert(substituted_from(rest, users, defaults, 0) == rendering(users, defaults, name)
        + substituted_from(rest, users, defaults, tok.len() as int));
    lemma_substituted_shift(before, rest, users, defaults, 0);
}

/// An occurrence of a placeholder that begins before another placeholder ends before it.
proof fn lemma_occurrence_prefix(pre: Seq<char>, rest: Seq<char>, m: Seq<char>, i: int)
    requires
        0 <= i < pre.len(),
        is_name(m),
        rest.len() >= 2,
        rest[0] == '#',
        rest[1] == '{',
    ensures
        occurs_at(pre + rest, token(m), i) == occurs_at(pre, token(m), i),
{
    let w = pre + rest;
    let p = token(m);
    if occurs_at(w, p, i) {
        if i + p.len() > pre.len() {
            let o = pre.len() - i;
            assert(w.subrange(i, i + p.len())[o] == p[o]);
            assert(w[pre.len() as int] == rest[0]);
            assert(w.subrange(i, i + p.len())[o + 1] == p[o + 1]);
            assert(w[pre.len() as int + 1] == rest[1]);
            if 2 <= o < 2 + m.len() {
                if o + 1 < 2 + m.len() {
                    assert(p[o + 1] == m[o + 1 - 2]);
                }
            }
            assert(false);
        }
        assert(pre.subrange(i, i + p.len()) =~= w.subrange(i, i + p.len()));
    }
    if occurs_at(pre, p, i) {
        assert(pre.subrange(i, i + p.len()) =~= w.subrange(i, i + p.len()));
    }
}

/// In what stands before a placeholder, a placeholder is replaced as if it stood alone.
proof fn lemma_replaced_prefix(
    pre: Seq<char>,
    rest: Seq<char>,
    m: Seq<char>,
    replacement: Seq<char>,
    i: int,
)
    requires
        0 <= i <= pre.len(),
        is_name(m),
        rest.len() >= 2,
        rest[0] == '#',
        rest[1] == '{',
    ensures
        replaced_from(pre + rest, token(m), replacement, i) == replaced_from(
            pre,
            token(m),
            replacement,
            i,
        ) + replaced_from(pre + rest, token(m), replacement, pre.len() as int),
    decreases pre.len() - i,
{
    let w = pre + rest;
    let p = token(m);
    let tail = replaced_from(w, p, replacement, pre.len() as int);
    if i < pre.len() {
        lemma_occurrence_prefix(pre, rest, m, i);
        assert(w[i] == pre[i]);
        if occurs_at(pre, p, i) {
            lemma_replaced_prefix(pre, rest, m, replacement, i + p.len());
            assert(replacement + (replaced_from(pre, p, replacement, i + p.len()) + tail) =~= (
            replacement + replaced_from(pre, p, replacement, i + p.len())) + tail);
        } else {
            lemma_replaced_prefix(pre, rest, m, replacement, i + 1);
            assert(seq![pre[i]] + (replaced_from(pre, p, replacement, i + 1) + tail) =~= (
            seq![pre[i]] + replaced_from(pre, p, replacement, i + 1)) + tail);
        }
    } else {
        assert(Seq::<char>::empty() + tail =~= tail);
    }
}

/// Within a placeholder no occurrence of another placeholder begins.
proof fn lemma_no_occurrence_within(n: Seq<char>, behind: Seq<char>, m: Seq<char>, k: int)
    requires
        is_name(n),
        is_name(m),
        0 <= k < token(n).len(),
        k > 0 || n != m,
    ensures
        !occurs_at(token(n) + behind, token(m), k),
{
    let tok = token(n);
    let rest = tok + behind;
    let p = token(m);
    if occurs_at(rest, p, k) {
        let sub = rest.subrange(k, k + p.len());
        assert(sub[0] == p[0]);
        assert(sub[1] == p[1]);
        if k == 0 {
            assert forall|j: int| 2 <= j < 2 + n.len() implies rest[j] != '{' && rest[j] != '}' by {
                assert(rest[j] == n[j - 2]);
            }
            assert(rest[2 + n.len() as int] == '}');
            lemma_name_end_over(rest, 2, 2 + n.len() as int);
            assert forall|j: int| 2 <= j < 2 + m.len() implies rest[j] != '{' && rest[j] != '}' by {
                assert(sub[j] == p[j]);
                assert(p[j] == m[j - 2]);
            }
            assert(sub[2 + m.len() as int] == p[2 + m.len() as int]);
            lemma_name_end_over(rest, 2, 2 + m.len() as int);
            assert(n.len() == m.len());
            assert forall|j: int| 0 <= j < n.len() implies n[j] == m[j] by {
                assert(rest[j + 2] == n[j]);
                assert(sub[j + 2] == p[j + 2]);
            }
            assert(n =~= m);
        } else {
            assert(rest[k] == tok[k]);
            assert(rest[k + 1] == '{');
            if k + 1 < tok.len() {
                assert(rest[k + 1] == tok[k + 1]);
                if k + 1 < 2 + n.len() {
                    assert(tok[k + 1] == n[k + 1 - 2]);
                }
            } else {
                assert(tok[k] == '}');
            }
        }
        assert(false);
    }
}

/// Replacing a placeholder throughout a text that holds a placeholder: the
/// text before and the text behind are treated as if each stood alone, and
/// the placeholder between them is replaced if it is the one looked for, and
/// copied if it is another.
pub proof fn lemma_token_replaced_in_place(
    before: Seq<char>,
    n: Seq<char>,
    behind: Seq<char>,
    m: Seq<char>,
    replacement: Seq<char>,
)
    requires
        is_name(n),
        is_name(m),
    ensures
        replaced(before + token(n) + behind, token(m), replacement) == replaced(
            before,
            token(m),
            replacement,
        ) + (if n == m {
            replacement
        } else {
            token(n)
        }) + replaced(behind, token(m), replacement),
{
    let tok = token(n);
    let p = token(m);
    let rest = tok + behind;
    let w = before + rest;
    assert(w =~= before + tok + behind);
    assert(rest[0] == '#');
    assert(rest[1] == '{');
    lemma_replaced_prefix(before, rest, m, replacement, 0);
    lemma_replaced_from_shift(before, rest, p, replacement, 0);
    lemma_replaced_from_shift(tok, behind, p, replacement, 0);
    if n == m {
        assert(rest.subrange(0, p.len() as int) =~= p);
        assert(occurs_at(rest, p, 0));
    } else {
        assert forall|k: int| 0 <= k < tok.len() implies !occurs_at(rest, p, k) by {
            lemma_no_occurrence_within(n, behind, m, k);
        }
        lemma_replaced_from_without_occurrence(rest, p, replacement, 0, tok.len() as int);
        assert(rest.subrange(0, tok.len() as int) =~= tok);
    }
}

/// The placeholder of the working directory is the placeholder named `location`.
pub proof fn lemma_location_token()
    ensures
        is_name(reserved_name()),
        location_token() == token(reserved_name()),
{
    reveal_strlit("location");
    reveal_strlit("#{location}");
    assert(location_token() =~= token(reserved_name()));
}

/// A placeholder for which the user gave a value that is not empty is
/// replaced by that value, wherever it stands in a template; only the
/// working directory is filled in afterwards.
pub proof fn law_user_value_substituted(
    before: Seq<char>,
    name: Seq<char>,
    behind: Seq<char>,
    users: Seq<UserValue>,
    defaults: Seq<PayloadArg>,
    working_dir: Seq<char>,
)
    requires
        is_name(name),
        name != reserved_name(),
        user_value(users, name) is Some,
    ensures
        user_value(users, name)->0.len() > 0,
        substituted(before + token(name) + behind, users, defaults) == substituted(
            before,
            users,
            defaults,
        ) + user_value(users, name)->0 + substituted(behind, users, defaults),
        resolution(before + token(name) + behind, users, defaults, working_dir) == replaced(
            substituted(before, users, defaults) + user_value(users, name)->0 + substituted(
                behind,
                users,
                defaults,
            ),
            location_token(),
            working_dir,
        ),
{
    law_placeholder_rendered_in_place(before, name, behind, users, defaults);
    lemma_user_value_not_empty(users, name, 0);
}

/// A value that counts as given by the user is not empty.
proof fn lemma_user_value_not_empty(users: Seq<UserValue>, name: Seq<char>, from: int)
    requires
        0 <= from,
        user_value_from(users, name, from) is Some,
    ensures
        user_value_from(users, name, from)->0.len() > 0,
    decreases users.len() - from,
{
    if from < users.len() && !(users[from].key@ == name && users[from].value@.len() > 0) {
        lemma_user_value_not_empty(users, name, from + 1);
    }
}

/// A placeholder for which the user gave no value, or an empty one, and to
/// which the contract gives a default is replaced by that default, wherever
/// it stands in a template.
pub proof fn law_default_substituted(
    before: Seq<char>,
    name: Seq<char>,
    behind: Seq<char>,
    users: Seq<UserValue>,
    defaults: Seq<PayloadArg>,
    working_dir: Seq<char>,
)
    requires
        is_name(name),
        name != reserved_name(),
        user_value(users, name) is None,
        default_value(defaults, name) is Some,
    ensures
        substituted(before + token(name) + behind, users, defaults) == substituted(
            before,
            users,
            defaults,
        ) + default_value(defaults, name)->0 + substituted(behind, users, defaults),
        resolution(before + token(name) + behind, users, defaults, working_dir) == replaced(
            substituted(before, users, defaults) + default_value(defaults, name)->0 + substituted(
                behind,
                users,
                defaults,
            ),
            location_token(),
            working_dir,
        ),
{
    law_placeholder_rendered_in_place(before, name, behind, users, defaults);
}

/// A placeholder with neither a user value nor a default comes out of the
/// resolution exactly as it went in, wherever it stands in a template, and
/// what stands before and behind it is resolved as if each stood alone. So
/// resolving the placeholder alone gives it back, however often that is done.
pub proof fn law_unresolved_placeholder_kept(
    before: Seq<char>,
    name: Seq<char>,
    behind: Seq<char>,
    users: Seq<UserValue>,
    defaults: Seq<PayloadArg>,
    working_dir: Seq<char>,
)
    requires
        is_name(name),
        name != reserved_name(),
        user_value(users, name) is None,
        default_value(defaults, name) is None,
    ensures
        resolution(before + token(name) + behind, users, defaults, working_dir) == resolution(
            before,
            users,
            defaults,
            working_dir,
        ) + token(name) + resolution(behind, users, defaults, working_dir),
        resolution(token(name), users, defaults, working_dir) == token(name),
{
    lemma_location_token();
    law_placeholder_rendered_in_place(before, name, behind, users, defaults);
    lemma_token_replaced_in_place(
        substituted(before, users, defaults),
        name,
        substituted(behind, users, defaults),
        reserved_name(),
        working_dir,
    );
    let none = Seq::<char>::empty();
    law_placeholder_rendered_in_place(none, name, none, users, defaults);
    lemma_token_replaced_in_place(none, name, none, reserved_name(), working_dir);
    assert(none + token(name) + none =~= token(name));
}

/// Every `#{location}` of a template is replaced by the working directory,
/// whatever the user and the contract say of the name `location`, and what
/// stands before and behind it is resolved as if each stood alone. So a
/// template that is nothing but `#{location}` resolves to the working directory.
pub proof fn law_location_replaced(
    before: Seq<char>,
    behind: Seq<char>,
    users: Seq<UserValue>,
    defaults: Seq<PayloadArg>,
    working_dir: Seq<char>,
)
    ensures
        resolution(before + location_token() + behind, users, defaults, working_dir) == resolution(
            before,
            users,
            defaults,
            working_dir,
        ) + working_dir + resolution(behind, users, defaults, working_dir),
        resolution(location_token(), users, defaults, working_dir) == working_dir,
{
    lemma_location_token();
    let name = reserved_name();
    law_placeholder_rendered_in_place(before, name, behind, users, defaults);
    lemma_token_replaced_in_place(
        substituted(before, users, defaults),
        name,
        substituted(behind, users, defaults),
        name,
        working_dir,
    );
    let none = Seq::<char>::empty();
    law_placeholder_rendered_in_place(none, name, none, users, defaults);
    lemma_token_replaced_in_place(none, name, none, name, working_dir);
    assert(none + token(name) + none =~= token(name));
    assert(none + working_dir + none =~= working_dir);
}

/// The two characters that open a placeholder stand at index `at`.
pub open spec fn opens_at(text: Seq<char>, at: int) -> bool {
    &&& 0 <= at
    &&& at + 1 < text.len()
    &&& text[at] == '#'
    &&& text[at + 1] == '{'
}

/// Every placeholder of the text has a value of the user, and none is that
/// of the working directory.
pub open spec fn all_given(text: Seq<char>, users: Seq<UserValue>) -> bool {
    forall|i: int| #[trigger]
        placeholder_at(text, i) ==> placeholder_name(text, i) != reserved_name() && user_value(
            users,
            placeholder_name(text, i),
        ) is Some
}

/// No placeholder of the text has a value, and none is that of the working directory.
pub open spec fn has_no_value(text: Seq<char>, users: Seq<UserValue>, defaults: Seq<PayloadArg>) -> bool {
    forall|i: int| #[trigger]
        placeholder_at(text, i) ==> placeholder_name(text, i) != reserved_name() && value_for(
            users,
            defaults,
            placeholder_name(text, i),
        ) is None
}

/// A rule that says what a placeholder of a given name is replaced with, if anything.
pub type Values = spec_fn(Seq<char>) -> Option<Seq<char>>;

/// The rule of the first pass of a resolution: the values of the user, then
/// the defaults of the contract, and nothing for the working directory.
pub open spec fn values_of(users: Seq<UserValue>, defaults: Seq<PayloadArg>) -> Values {
    |name: Seq<char>| value_for(users, defaults, name)
}

/// The rule of the second pass of a resolution: the working directory for
/// its placeholder, and nothing for any other.
pub open spec fn directory_for(working_dir: Seq<char>) -> Values {
    |name: Seq<char>|
        if name == reserved_name() {
            Some(working_dir)
        } else {
            None
        }
}

/// `text` from index `from` on, each placeholder for which the rule has a
/// value replaced by that value, in one pass.
pub open spec fn filled_from(text: Seq<char>, values: Values, from: int) -> Seq<char>
    decreases text.len() - from,
    via filled_from_decreases
{
    if from < 0 || from >= text.len() {
        Seq::empty()
    } else if placeholder_at(text, from) {
        (match values(placeholder_name(text, from)) {
            Some(value) => value,
            None => token(placeholder_name(text, from)),
        }) + filled_from(text, values, placeholder_end(text, from))
    } else {
        seq![text[from]] + filled_from(text, values, from + 1)
    }
}

/// A placeholder ends behind the place where it begins.
#[via_fn]
proof fn filled_from_decreases(text: Seq<char>, values: Values, from: int) {
}

/// `text` with each placeholder for which the rule has a value replaced by that value.
pub open spec fn filled(text: Seq<char>, values: Values) -> Seq<char> {
    filled_from(text, values, 0)
}

/// At `at` begins a placeholder for which the rule has a value.
pub open spec fn is_filled_at(text: Seq<char>, values: Values, at: int) -> bool {
    placeholder_at(text, at) && values(placeholder_name(text, at)) is Some
}

/// The value of the placeholder that begins at `at`.
pub open spec fn value_at(text: Seq<char>, values: Values, at: int) -> Seq<char> {
    values(placeholder_name(text, at))->0
}

/// The value of the placeholder that begins at `at` makes no `#{`: it is
/// not empty, so that what stands around it does not meet; it holds no `#{`;
/// and it forms none with what stands next to it, neither as a `{` behind a
/// `#` of the text, nor as a `#` before a `{` of the text or of the value of
/// a placeholder that follows at once.
pub open spec fn joins_nothing(text: Seq<char>, values: Values, at: int) -> bool {
    let value = value_at(text, values, at);
    let end = placeholder_end(text, at);
    &&& value.len() > 0
    &&& forall|k: int| !opens_at(value, k)
    &&& value.first() == '{' ==> !(at > 0 && text[at - 1] == '#')
    &&& value.last() == '#' ==> !(end < text.len() && text[end] == '{') && !(is_filled_at(
        text,
        values,
        end,
    ) && value_at(text, values, end).first() == '{')
}

/// At `at` stands a `#{` that opens no placeholder, and the name behind it
/// runs into a placeholder for which the rule has a value.
pub open spec fn runs_into_value(text: Seq<char>, values: Values, at: int) -> bool {
    &&& opens_at(text, at)
    &&& !placeholder_at(text, at)
    &&& is_filled_at(text, values, name_end(text, at + 2) - 1)
}

/// The placeholders of the text are filled by the rule without any `#{`
/// being made or closed on the way.
pub open spec fn is_filled_cleanly(text: Seq<char>, values: Values) -> bool {
    &&& forall|i: int| #[trigger] is_filled_at(text, values, i) ==> joins_nothing(text, values, i)
    &&& forall|i: int| !runs_into_value(text, values, i)
}

/// A template is resolved cleanly: its placeholders are filled cleanly in
/// the first pass, and the working directory is put cleanly into what the
/// first pass gives.
pub open spec fn is_resolved_cleanly(
    template: Seq<char>,
    users: Seq<UserValue>,
    defaults: Seq<PayloadArg>,
    working_dir: Seq<char>,
) -> bool {
    &&& is_filled_cleanly(template, values_of(users, defaults))
    &&& is_filled_cleanly(substituted(template, users, defaults), directory_for(working_dir))
}

/// The name is that of a placeholder of the text, at or behind `from`, for
/// which the rule has no value.
pub open spec fn is_left_from(text: Seq<char>, values: Values, from: int, name: Seq<char>) -> bool {
    exists|i: int|
        from <= i && #[trigger] placeholder_at(text, i) && placeholder_name(text, i) == name
            && values(name) is None
}

/// Where a text occurs that is a placeholder, a placeholder of that name begins.
proof fn lemma_token_is_placeholder(text: Seq<char>, name: Seq<char>, at: int)
    requires
        is_name(name),
        occurs_at(text, token(name), at),
    ensures
        placeholder_at(text, at),
        placeholder_name(text, at) == name,
        placeholder_end(text, at) == at + token(name).len(),
{
    let tok = token(name);
    let found = text.subrange(at, at + tok.len());
    assert(found[0] == tok[0]);
    assert(found[1] == tok[1]);
    assert forall|j: int| at + 2 <= j < at + 2 + name.len() implies text[j] != '{' && text[j]
        != '}' by {
        assert(found[j - at] == tok[j - at]);
        assert(tok[j - at] == name[j - at - 2]);
    }
    assert(found[2 + name.len() as int] == tok[2 + name.len() as int]);
    lemma_name_end_over(text, at + 2, at + 2 + name.len() as int);
    assert forall|j: int| 0 <= j < name.len() implies text[at + 2 + j] == name[j] by {
        assert(found[j + 2] == tok[j + 2]);
    }
    assert(placeholder_name(text, at) =~= name);
}

/// A placeholder is the text of its name between `#{` and `}`.
proof fn lemma_placeholder_is_token(text: Seq<char>, at: int)
    requires
        placeholder_at(text, at),
    ensures
        is_name(placeholder_name(text, at)),
        token(placeholder_name(text, at)) == text.subrange(at, placeholder_end(text, at)),
        occurs_at(text, token(placeholder_name(text, at)), at),
        placeholder_end(text, at) <= text.len(),
        placeholder_end(text, at) == at + token(placeholder_name(text, at)).len(),
{
    lemma_name_end(text, at + 2);
    assert(token(placeholder_name(text, at)) =~= text.subrange(at, placeholder_end(text, at)));
}

/// The first pass of a resolution fills the placeholders by its rule.
proof fn lemma_substituted_is_filled(
    text: Seq<char>,
    users: Seq<UserValue>,
    defaults: Seq<PayloadArg>,
    from: int,
)
    ensures
        substituted_from(text, users, defaults, from) == filled_from(
            text,
            values_of(users, defaults),
            from,
        ),
    decreases text.len() - from,
{
    if 0 <= from < text.len() {
        if placeholder_at(text, from) {
            lemma_substituted_is_filled(text, users, defaults, placeholder_end(text, from));
        } else {
            lemma_substituted_is_filled(text, users, defaults, from + 1);
        }
    }
}

/// The second pass of a resolution fills the placeholders by its rule:
/// replacing `#{location}` throughout is filling the placeholders of that name.
proof fn lemma_replaced_is_filled(text: Seq<char>, working_dir: Seq<char>, from: int)
    requires
        0 <= from <= text.len(),
    ensures
        replaced_from(text, location_token(), working_dir, from) == filled_from(
            text,
            directory_for(working_dir),
            from,
        ),
    decreases text.len() - from,
{
    lemma_location_token();
    let pattern = location_token();
    let values = directory_for(working_dir);
    if from < text.len() {
        if placeholder_at(text, from) {
            lemma_placeholder_is_token(text, from);
            let name = placeholder_name(text, from);
            let end = placeholder_end(text, from);
            lemma_replaced_is_filled(text, working_dir, end);
            if name == reserved_name() {
                assert(occurs_at(text, pattern, from));
            } else {
                assert forall|at: int| from <= at < end implies !occurs_at(text, pattern, at) by {
                    if occurs_at(text, pattern, at) {
                        lemma_token_is_placeholder(text, reserved_name(), at);
                        if at > from {
                            assert(text[at + 1] == '{');
                            lemma_name_end(text, from + 2);
                        }
                    }
                }
                lemma_replaced_from_without_occurrence(text, pattern, working_dir, from, end);
            }
        } else {
            lemma_replaced_is_filled(text, working_dir, from + 1);
            if occurs_at(text, pattern, from) {
                lemma_token_is_placeholder(text, reserved_name(), from);
            }
        }
    }
}

/// A text none of whose placeholders has a value is copied, from any index on.
proof fn lemma_text_without_values_is_copied(text: Seq<char>, values: Values, from: int)
    requires
        0 <= from <= text.len(),
        forall|i: int| #[trigger] placeholder_at(text, i) ==> values(placeholder_name(text, i))
            is None,
    ensures
        filled_from(text, values, from) == text.subrange(from, text.len() as int),
    decreases text.len() - from,
{
    let rest = text.subrange(from, text.len() as int);
    if from < text.len() {
        if placeholder_at(text, from) {
            let end = placeholder_end(text, from);
            lemma_placeholder_is_token(text, from);
            lemma_text_without_values_is_copied(text, values, end);
            assert(text.subrange(from, end) + text.subrange(end, text.len() as int) =~= rest);
        } else {
            lemma_text_without_values_is_copied(text, values, from + 1);
            assert(seq![text[from]] + text.subrange(from + 1, text.len() as int) =~= rest);
        }
    } else {
        assert(rest =~= Seq::<char>::empty());
    }
}

/// What is left unresolved stays so: a text none of whose placeholders has
/// a value, and none of which is that of the working directory, resolves to
/// itself, however often that is done.
pub proof fn law_text_without_values_resolves_to_itself(
    text: Seq<char>,
    users: Seq<UserValue>,
    defaults: Seq<PayloadArg>,
    working_dir: Seq<char>,
)
    requires
        has_no_value(text, users, defaults),
    ensures
        resolution(text, users, defaults, working_dir) == text,
{
    lemma_substituted_is_filled(text, users, defaults, 0);
    lemma_text_without_values_is_copied(text, values_of(users, defaults), 0);
    assert(text.subrange(0, text.len() as int) =~= text);
    lemma_replaced_is_filled(text, working_dir, 0);
    lemma_text_without_values_is_copied(text, directory_for(working_dir), 0);
}

/// A stretch of the text that holds no brace and no placeholder is copied.
proof fn lemma_run_is_copied(text: Seq<char>, values: Values, from: int, stop: int)
    requires
        0 <= from <= stop <= text.len(),
        forall|k: int| from <= k < stop ==> text[k] != '{' && text[k] != '}',
        forall|k: int| from <= k < stop ==> !placeholder_at(text, k),
    ensures
        filled_from(text, values, from) == text.subrange(from, stop) + filled_from(
            text,
            values,
            stop,
        ),
    decreases stop - from,
{
    let tail = filled_from(text, values, stop);
    if from < stop {
        lemma_run_is_copied(text, values, from + 1, stop);
        assert(seq![text[from]] + (text.subrange(from + 1, stop) + tail) =~= text.subrange(
            from,
            stop,
        ) + tail);
    } else {
        assert(text.subrange(from, stop) + tail =~= tail);
    }
}

/// A `#{` of the text that opens no placeholder, and whose name does not
/// run into a placeholder that has a value, opens none in the filled text either.
proof fn lemma_open_stays_open(text: Seq<char>, values: Values, at: int)
    requires
        opens_at(text, at),
        !placeholder_at(text, at),
        !runs_into_value(text, values, at),
    ensures
        !placeholder_at(filled_from(text, values, at), 0),
{
    let brace = name_end(text, at + 2);
    lemma_name_end(text, at + 2);
    // the name runs up to a brace of the text, or up to the `#` of a placeholder without value
    let stop = if placeholder_at(text, brace - 1) {
        brace - 1
    } else {
        brace
    };
    assert forall|k: int| at + 2 <= k < stop implies !placeholder_at(text, k) by {
        if placeholder_at(text, k) {
            assert(text[k + 1] == '{');
            assert(k + 1 == brace);
        }
    }
    assert(at + 2 <= stop) by {
        if placeholder_at(text, brace - 1) && brace - 1 < at + 2 {
            assert(text[brace - 1] == '#');
        }
    }
    lemma_run_is_copied(text, values, at + 2, stop);
    let run = text.subrange(at + 2, stop);
    let tail = filled_from(text, values, stop);
    let result = filled_from(text, values, at);
    let behind_hash = filled_from(text, values, at + 1);
    let behind_brace = filled_from(text, values, at + 2);
    assert(!placeholder_at(text, at + 1));
    assert(result == seq![text[at]] + behind_hash);
    assert(behind_hash == seq![text[at + 1]] + behind_brace);
    assert(behind_brace == run + tail);
    assert(result =~= seq!['#', '{'] + run + tail);
    assert forall|k: int| 2 <= k < 2 + run.len() implies result[k] != '{' && result[k] != '}' by {
        assert(result[k] == run[k - 2]);
    }
    if placeholder_at(text, brace - 1) {
        // the placeholder has no value and is copied: its `{` ends the name
        lemma_placeholder_is_token(text, stop);
        let name = placeholder_name(text, stop);
        assert(tail == token(name) + filled_from(text, values, placeholder_end(text, stop)));
        assert(tail[0] == '#');
        assert(tail[1] == '{');
        assert(result[2 + run.len() as int] == '#');
        assert(result[3 + run.len() as int] == '{');
        lemma_name_end_over(result, 2, 3 + run.len() as int);
    } else if stop < text.len() {
        assert(!placeholder_at(text, stop));
        assert(tail[0] == text[stop]);
        assert(result[2 + run.len() as int] == text[stop]);
        lemma_name_end_over(result, 2, 2 + run.len() as int);
    } else {
        assert(tail.len() == 0);
        lemma_name_end(result, 2);
    }
}

/// Filling a text cleanly leaves no placeholder but those that have no
/// value, from any index on; and the filled text begins with `{` only where
/// the text has one, or a value that begins with one.
proof fn lemma_clean_filling_leaves_what_has_no_value(text: Seq<char>, values: Values, from: int)
    requires
        0 <= from <= text.len(),
        is_filled_cleanly(text, values),
    ensures
        forall|k: int| #[trigger]
            placeholder_at(filled_from(text, values, from), k) ==> is_left_from(
                text,
                values,
                from,
                placeholder_name(filled_from(text, values, from), k),
            ),
        filled_from(text, values, from).len() > 0 && filled_from(text, values, from).first()
            == '{' ==> from < text.len() && (text[from] == '{' || (is_filled_at(
            text,
            values,
            from,
        ) && value_at(text, values, from).first() == '{')),
    decreases text.len() - from,
{
    if from < text.len() {
        let result = filled_from(text, values, from);
        if placeholder_at(text, from) {
            let name = placeholder_name(text, from);
            let end = placeholder_end(text, from);
            lemma_placeholder_is_token(text, from);
            let rest = filled_from(text, values, end);
            lemma_clean_filling_leaves_what_has_no_value(text, values, end);
            if values(name) is Some {
                let value = value_at(text, values, from);
                assert(result == value + rest);
                assert(is_filled_at(text, values, from));
                assert(joins_nothing(text, values, from));
                assert(result.first() == value.first());
                assert forall|k: int| #[trigger] placeholder_at(result, k) implies is_left_from(
                    text,
                    values,
                    from,
                    placeholder_name(result, k),
                ) by {
                    if k >= value.len() {
                        lemma_placeholder_shift(value, rest, k - value.len());
                        let n = placeholder_name(rest, k - value.len());
                        assert(is_left_from(text, values, end, n));
                        let i = choose|i: int|
                            end <= i && #[trigger] placeholder_at(text, i) && placeholder_name(
                                text,
                                i,
                            ) == n && values(n) is None;
                        assert(from <= i && placeholder_at(text, i));
                    } else if k + 1 < value.len() {
                        assert(result[k] == value[k] && result[k + 1] == value[k + 1]);
                        assert(opens_at(value, k));
                    } else {
                        assert(result[k] == value.last());
                        assert(result[k + 1] == rest.first());
                        if end < text.len() && placeholder_at(text, end) {
                            assert(text[end] == '#');
                        }
                    }
                }
            } else {
                let tok = token(name);
                assert(result == tok + rest);
                assert(result.first() == '#') by {
                    assert(result[0] == tok[0]);
                }
                assert forall|k: int| #[trigger] placeholder_at(result, k) implies is_left_from(
                    text,
                    values,
                    from,
                    placeholder_name(result, k),
                ) by {
                    if k >= tok.len() {
                        lemma_placeholder_shift(tok, rest, k - tok.len());
                        let n = placeholder_name(rest, k - tok.len());
                        assert(is_left_from(text, values, end, n));
                        let i = choose|i: int|
                            end <= i && #[trigger] placeholder_at(text, i) && placeholder_name(
                                text,
                                i,
                            ) == n && values(n) is None;
                        assert(from <= i && placeholder_at(text, i));
                    } else if k == 0 {
                        assert(result.subrange(0, tok.len() as int) =~= tok);
                        lemma_token_is_placeholder(result, name, 0);
                        assert(placeholder_at(text, from));
                    } else {
                        assert(result[k] == tok[k]);
                        if k + 1 < tok.len() {
                            assert(result[k + 1] == tok[k + 1]);
                            if k + 1 < 2 + name.len() {
                                assert(tok[k + 1] == name[k + 1 - 2]);
                            }
                        }
                    }
                }
            }
        } else {
            let rest = filled_from(text, values, from + 1);
            lemma_clean_filling_leaves_what_has_no_value(text, values, from + 1);
            let one = seq![text[from]];
            assert(result == one + rest);
            assert(result.first() == text[from]);
            assert forall|k: int| #[trigger] placeholder_at(result, k) implies is_left_from(
                text,
                values,
                from,
                placeholder_name(result, k),
            ) by {
                if k >= 1 {
                    lemma_placeholder_shift(one, rest, k - 1);
                    let n = placeholder_name(rest, k - 1);
                    assert(is_left_from(text, values, from + 1, n));
                    let i = choose|i: int|
                        from + 1 <= i && #[trigger] placeholder_at(text, i) && placeholder_name(
                            text,
                            i,
                        ) == n && values(n) is None;
                    assert(from <= i && placeholder_at(text, i));
                } else {
                    assert(result[0] == text[from]);
                    assert(result[1] == rest.first());
                    if is_filled_at(text, values, from + 1) {
                        assert(joins_nothing(text, values, from + 1));
                    } else if placeholder_at(text, from + 1) {
                        lemma_placeholder_is_token(text, from + 1);
                        assert(rest[0] == token(placeholder_name(text, from + 1))[0]);
                    } else {
                        assert(opens_at(text, from));
                        assert(!runs_into_value(text, values, from));
                        lemma_open_stays_open(text, values, from);
                    }
                }
            }
        }
    }
}

/// A template that is resolved cleanly resolves to a text whose every
/// placeholder is one of its own that has no value: nothing that looks like
/// a placeholder is made on the way, neither by the values nor by the
/// working directory. So resolving the result again changes nothing, and the
/// placeholders that were left unresolved are still there.
pub proof fn law_clean_resolution_is_final(
    template: Seq<char>,
    users: Seq<UserValue>,
    defaults: Seq<PayloadArg>,
    working_dir: Seq<char>,
)
    requires
        is_resolved_cleanly(template, users, defaults, working_dir),
    ensures
        forall|k: int| #[trigger]
            placeholder_at(resolution(template, users, defaults, working_dir), k) ==> is_left_from(
                template,
                values_of(users, defaults),
                0,
                placeholder_name(resolution(template, users, defaults, working_dir), k),
            ) && placeholder_name(resolution(template, users, defaults, working_dir), k)
                != reserved_name(),
        has_no_value(resolution(template, users, defaults, working_dir), users, defaults),
        resolution(
            resolution(template, users, defaults, working_dir),
            users,
            defaults,
            working_dir,
        ) == resolution(template, users, defaults, working_dir),
{
    let first = values_of(users, defaults);
    let second = directory_for(working_dir);
    let between = substituted(template, users, defaults);
    let result = resolution(template, users, defaults, working_dir);
    lemma_substituted_is_filled(template, users, defaults, 0);
    lemma_replaced_is_filled(between, working_dir, 0);
    assert(between == filled(template, first));
    assert(result == filled(between, second));
    lemma_clean_filling_leaves_what_has_no_value(template, first, 0);
    lemma_clean_filling_leaves_what_has_no_value(between, second, 0);
    assert forall|k: int| #[trigger] placeholder_at(result, k) implies is_left_from(
        template,
        first,
        0,
        placeholder_name(result, k),
    ) && placeholder_name(result, k) != reserved_name() by {
        let n = placeholder_name(result, k);
        assert(is_left_from(between, second, 0, n));
        let j = choose|j: int|
            0 <= j && #[trigger] placeholder_at(between, j) && placeholder_name(between, j) == n
                && second(n) is None;
        assert(is_left_from(template, first, 0, placeholder_name(between, j)));
    }
    assert forall|k: int| #[trigger] placeholder_at(result, k) implies placeholder_name(result, k)
        != reserved_name() && value_for(users, defaults, placeholder_name(result, k)) is None by {
        let n = placeholder_name(result, k);
        assert(is_left_from(template, first, 0, n));
        let i = choose|i: int|
            0 <= i && #[trigger] placeholder_at(template, i) && placeholder_name(template, i) == n
                && first(n) is None;
    }
    law_text_without_values_resolves_to_itself(result, users, defaults, working_dir);
}

/// A template whose placeholders all have a value of the user resolves to a
/// text that holds no placeholder at all, and so none of its own, provided
/// that the values are filled in cleanly: no value holds `#{` or forms it
/// with what stands next to it, and no `#{` that the template leaves open
/// runs into a placeholder. The result is then the template with each
/// placeholder replaced by its value, the working directory plays no part
/// in it, and resolving it again changes nothing.
pub proof fn law_filled_template_holds_no_placeholder(
    template: Seq<char>,
    users: Seq<UserValue>,
    defaults: Seq<PayloadArg>,
    working_dir: Seq<char>,
)
    requires
        all_given(template, users),
        is_filled_cleanly(template, values_of(users, defaults)),
    ensures
        forall|k: int| !placeholder_at(resolution(template, users, defaults, working_dir), k),
        forall|name: Seq<char>|
            is_name(name) ==> !occurs_in(
                resolution(template, users, defaults, working_dir),
                #[trigger] token(name),
            ),
        resolution(template, users, defaults, working_dir) == substituted(
            template,
            users,
            defaults,
        ),
        resolution(
            resolution(template, users, defaults, working_dir),
            users,
            defaults,
            working_dir,
        ) == resolution(template, users, defaults, working_dir),
{
    let first = values_of(users, defaults);
    let between = substituted(template, users, defaults);
    lemma_substituted_is_filled(template, users, defaults, 0);
    lemma_clean_filling_leaves_what_has_no_value(template, first, 0);
    assert forall|k: int| !placeholder_at(between, k) by {
        if placeholder_at(between, k) {
            let n = placeholder_name(between, k);
            assert(is_left_from(template, first, 0, n));
            let i = choose|i: int|
                0 <= i && #[trigger] placeholder_at(template, i) && placeholder_name(template, i)
                    == n && first(n) is None;
            assert(user_value(users, placeholder_name(template, i)) is Some);
        }
    }
    lemma_replaced_is_filled(between, working_dir, 0);
    lemma_text_without_values_is_copied(between, directory_for(working_dir), 0);
    assert(between.subrange(0, between.len() as int) =~= between);
    let result = resolution(template, users, defaults, working_dir);
    assert(result == between);
    law_text_without_values_resolves_to_itself(result, users, defaults, working_dir);
    assert forall|name: Seq<char>| is_name(name) implies !occurs_in(
        result,
        #[trigger] token(name),
    ) by {
        if occurs_in(result, token(name)) {
            let at = choose|at: int| occurs_at(result, token(name), at);
            lemma_token_is_placeholder(result, name, at);
        }
    }
}

} // verus!
