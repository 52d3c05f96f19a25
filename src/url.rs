//! Undoing the shell escapes that a pasted URL may carry.
use vstd::prelude::*;
use vstd::string::{StrSliceExecFns, StringExecFns};
use crate::text::push_char;

verus! {

/// Left to right, every backslash directly followed by `c` is dropped; the
/// `c` itself is kept and is not looked at again.
pub open spec fn unescape(s: Seq<char>, c: char) -> Seq<char>
    decreases s.len(),
{
    if s.len() < 2 {
        s
    } else if s[0] == '\\' && s[1] == c {
        seq![c] + unescape(s.subrange(2, s.len() as int), c)
    } else {
        seq![s[0]] + unescape(s.subrange(1, s.len() as int), c)
    }
}

/// One cleaning pass: the escapes `\?`, `\=` and `\&` undone, in that order.
/// A pass can leave an escape behind: `\\?` becomes `\?`.
pub open spec fn cleaned(s: Seq<char>) -> Seq<char> {
    unescape(unescape(unescape(s, '?'), '='), '&')
}

/// `s` holds a backslash directly followed by `c`.
pub open spec fn has_escape_of(s: Seq<char>, c: char) -> bool {
    exists|i: int| 0 <= i < s.len() - 1 && s[i] == '\\' && #[trigger] s[i + 1] == c
}

/// `s` holds one of the escapes that `cleaned` undoes.
pub open spec fn has_escape(s: Seq<char>) -> bool {
    has_escape_of(s, '?') || has_escape_of(s, '=') || has_escape_of(s, '&')
}

fn unescape_str(s: &str, c: char) -> (r: String)
    ensures
        r@ == unescape(s@, c),
{
    let n = s.unicode_len();
    let mut r = String::new();
    let mut i: usize = 0;
    assert(s@.subrange(0, n as int) =~= s@);
    assert(r@ + unescape(s@, c) =~= unescape(s@, c));
    while i < n
        invariant
            n == s@.len(),
            i <= n,
            r@ + unescape(s@.subrange(i as int, n as int), c) == unescape(s@, c),
        decreases n - i,
    {
        let ghost rest = s@.subrange(i as int, n as int);
        let x = s.get_char(i);
        if i + 1 < n && x == '\\' && s.get_char(i + 1) == c {
            assert(rest.subrange(2, rest.len() as int) =~= s@.subrange(i + 2, n as int));
            assert(seq![c] + unescape(s@.subrange(i + 2, n as int), c) == unescape(rest, c));
            push_char(&mut r, c);
            i = i + 2;
        } else {
            assert(rest.subrange(1, rest.len() as int) =~= s@.subrange(i + 1, n as int));
            proof {
                if rest.len() == 1 {
                    assert(s@.subrange(i + 1, n as int).len() == 0);
                    assert(seq![x] + unescape(s@.subrange(i + 1, n as int), c) =~= rest);
                }
            }
            assert(seq![x] + unescape(s@.subrange(i + 1, n as int), c) == unescape(rest, c));
            push_char(&mut r, x);
            i = i + 1;
        }
        assert(r@ + unescape(s@.subrange(i as int, n as int), c) =~= unescape(s@, c));
    }
    assert(s@.subrange(n as int, n as int).len() == 0);
    assert(r@ =~= r@ + unescape(s@.subrange(n as int, n as int), c));
    r
}

/// The URL with cleaning passes repeated until no escape is left.
pub open spec fn normalized(s: Seq<char>) -> Seq<char>
    decreases s.len(),
    via normalized_decreases
{
    if has_escape(s) {
        normalized(cleaned(s))
    } else {
        s
    }
}

#[via_fn]
proof fn normalized_decreases(s: Seq<char>) {
    if has_escape(s) {
        lemma_cleaned_shortens(s);
    }
}

fn has_escape_str(s: &str) -> (b: bool)
    ensures
        b == has_escape(s@),
{
    let n = s.unicode_len();
    let mut i: usize = 0;
    while n > 0 && i < n - 1
        invariant
            n == s@.len(),
            i <= n,
            forall|k: int|
                0 <= k < i && k + 1 < n ==> !(s@[k] == '\\' && (#[trigger] s@[k + 1] == '?' || s@[k + 1] == '='
                    || s@[k + 1] == '&')),
        decreases n - i,
    {
        if s.get_char(i) == '\\' {
            let d = s.get_char(i + 1);
            if d == '?' || d == '=' || d == '&' {
                assert(s@[i as int + 1] == d);
                return true;
            }
        }
        i = i + 1;
    }
    proof {
        if has_escape(s@) {
            if has_escape_of(s@, '?') {
                let k = choose|k: int| 0 <= k < s@.len() - 1 && s@[k] == '\\' && #[trigger] s@[k + 1] == '?';
            }
            if has_escape_of(s@, '=') {
                let k = choose|k: int| 0 <= k < s@.len() - 1 && s@[k] == '\\' && #[trigger] s@[k + 1] == '=';
            }
            if has_escape_of(s@, '&') {
                let k = choose|k: int| 0 <= k < s@.len() - 1 && s@[k] == '\\' && #[trigger] s@[k + 1] == '&';
            }
        }
    }
    false
}

/// Undoes the escapes `\?`, `\=` and `\&` that a shell leaves in a pasted URL,
/// until none is left; the URL otherwise loses only backslashes.
pub fn clean_url(url: &str) -> (r: String)
    ensures
        r@ == normalized(url@),
        !has_escape(r@),
{
    let mut r = String::from_str(url);
    while has_escape_str(r.as_str())
        invariant
            normalized(r@) == normalized(url@),
        decreases r@.len(),
    {
        proof {
            lemma_cleaned_shortens(r@);
        }
        let a = unescape_str(r.as_str(), '?');
        let b = unescape_str(a.as_str(), '=');
        r = unescape_str(b.as_str(), '&');
    }
    r
}

proof fn lemma_unescape_len(s: Seq<char>, c: char)
    ensures
        unescape(s, c).len() <= s.len(),
        has_escape_of(s, c) ==> unescape(s, c).len() < s.len(),
    decreases s.len(),
{
    if s.len() >= 2 {
        if s[0] == '\\' && s[1] == c {
            lemma_unescape_len(s.subrange(2, s.len() as int), c);
        } else {
            let t = s.subrange(1, s.len() as int);
            lemma_unescape_len(t, c);
            if has_escape_of(s, c) {
                let i = choose|i: int| 0 <= i < s.len() - 1 && s[i] == '\\' && #[trigger] s[i + 1] == c;
                assert(i != 0);
                assert(t[(i - 1) + 1] == c);
            }
        }
    } else if has_escape_of(s, c) {
        let i = choose|i: int| 0 <= i < s.len() - 1 && s[i] == '\\' && #[trigger] s[i + 1] == c;
    }
}

proof fn lemma_unescape_first(t: Seq<char>, c: char)
    requires
        t.len() >= 1,
        t[0] != '\\',
    ensures
        unescape(t, c).len() >= 1,
        unescape(t, c)[0] == t[0],
{
}

proof fn lemma_unescape_keeps_other(s: Seq<char>, c: char, d: char)
    requires
        c != '\\',
        d != '\\',
        c != d,
        has_escape_of(s, d),
    ensures
        has_escape_of(unescape(s, c), d),
    decreases s.len(),
{
    let i = choose|i: int| 0 <= i < s.len() - 1 && s[i] == '\\' && #[trigger] s[i + 1] == d;
    let r = unescape(s, c);
    if s[0] == '\\' && s[1] == c {
        let t = s.subrange(2, s.len() as int);
        assert(t[(i - 2) + 1] == d);
        lemma_unescape_keeps_other(t, c, d);
        let j = choose|j: int| 0 <= j < unescape(t, c).len() - 1 && unescape(t, c)[j] == '\\' && #[trigger] unescape(t, c)[j + 1] == d;
        assert(r[(j + 1) + 1] == d);
    } else {
        let t = s.subrange(1, s.len() as int);
        if i == 0 {
            lemma_unescape_first(t, c);
            assert(r[0int + 1] == d);
        } else {
            assert(t[(i - 1) + 1] == d);
            lemma_unescape_keeps_other(t, c, d);
            let j = choose|j: int| 0 <= j < unescape(t, c).len() - 1 && unescape(t, c)[j] == '\\' && #[trigger] unescape(t, c)[j + 1] == d;
            assert(r[(j + 1) + 1] == d);
        }
    }
}

/// A URL that holds one of the three escapes comes out of cleaning shorter.
pub proof fn lemma_cleaned_shortens(s: Seq<char>)
    requires
        has_escape(s),
    ensures
        cleaned(s).len() < s.len(),
{
    let a = unescape(s, '?');
    let b = unescape(a, '=');
    lemma_unescape_len(s, '?');
    lemma_unescape_len(a, '=');
    lemma_unescape_len(b, '&');
    if has_escape_of(s, '=') {
        lemma_unescape_keeps_other(s, '?', '=');
    }
    if has_escape_of(s, '&') {
        lemma_unescape_keeps_other(s, '?', '&');
        lemma_unescape_keeps_other(a, '=', '&');
    }
}

/// A URL without escapes is its own normal form.
pub proof fn lemma_normalized_plain(s: Seq<char>)
    requires
        !has_escape(s),
    ensures
        normalized(s) == s,
{
}

/// The normal form holds no escape.
pub proof fn lemma_normalized_has_no_escape(s: Seq<char>)
    ensures
        !has_escape(normalized(s)),
    decreases s.len(),
{
    if has_escape(s) {
        lemma_cleaned_shortens(s);
        lemma_normalized_has_no_escape(cleaned(s));
    }
}

/// Normalizing is idempotent: normalizing a normalized URL gives it back
/// unchanged.
pub proof fn lemma_normalize_idempotent(u: Seq<char>)
    ensures
        normalized(normalized(u)) == normalized(u),
{
    lemma_normalized_has_no_escape(u);
    lemma_normalized_plain(normalized(u));
}

} // verus!
