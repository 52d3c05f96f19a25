//! Names of the files a run writes.
use vstd::prelude::*;
use vstd::string::StringExecFns;
use crate::text::{decimal, digit_char, padded2, push_char, sequence_label};

verus! {

/// A character that a sanitized file name never holds: a path separator or
/// another character that file systems reserve, or a control character.
pub open spec fn is_reserved_char(c: char) -> bool {
    ||| c == '/'
    ||| c == '?'
    ||| c == '<'
    ||| c == '>'
    ||| c == '\\'
    ||| c == ':'
    ||| c == '*'
    ||| c == '|'
    ||| c == '"'
    ||| (c as u32) <= 0x1f
    ||| (0x80 <= (c as u32) && (c as u32) <= 0x9f)
}

/// What holds of every sanitized name: no reserved character, and at most 255
/// characters.
pub open spec fn is_safe_name(s: Seq<char>) -> bool {
    &&& s.len() <= 255
    &&& forall|i: int| 0 <= i < s.len() ==> !is_reserved_char(#[trigger] s[i])
}

/// `r` is `s` with some of its characters deleted (possibly none).
pub open spec fn is_subsequence(r: Seq<char>, s: Seq<char>) -> bool
    decreases s.len(),
{
    if r.len() == 0 {
        true
    } else if s.len() == 0 {
        false
    } else if r[0] == s[0] {
        is_subsequence(r.drop_first(), s.drop_first())
    } else {
        is_subsequence(r, s.drop_first())
    }
}

/// `c` is the ASCII letter `l` (given in lower case), in either case.
pub open spec fn is_letter(c: char, l: char) -> bool {
    c == l || (c as u32) + 32 == (l as u32)
}

/// The first three characters of `w` spell `a b c`, in any case.
pub open spec fn spells(w: Seq<char>, a: char, b: char, c: char) -> bool {
    is_letter(w[0], a) && is_letter(w[1], b) && is_letter(w[2], c)
}

/// A device name that Windows reserves: `con`, `prn`, `aux`, `nul`, or `com`
/// or `lpt` and a digit, in any case.
pub open spec fn is_device_word(w: Seq<char>) -> bool {
    ||| w.len() == 3 && (spells(w, 'c', 'o', 'n') || spells(w, 'p', 'r', 'n') || spells(
        w,
        'a',
        'u',
        'x',
    ) || spells(w, 'n', 'u', 'l'))
    ||| w.len() == 4 && (spells(w, 'c', 'o', 'm') || spells(w, 'l', 'p', 't')) && is_digit(w[3])
}

/// A device name, alone or followed by `.` and anything.
pub open spec fn is_device_name(s: Seq<char>) -> bool {
    exists|k: int|
        3 <= k <= 4 && k <= s.len() && (k == s.len() || s[k] == '.') && #[trigger] is_device_word(
            s.subrange(0, k),
        )
}

/// A name that sanitizing leaves as it is on every platform: ASCII, at most
/// 255 characters, no reserved character, no trailing `.` or space, and no
/// device name.
pub open spec fn is_plain_name(s: Seq<char>) -> bool {
    &&& s.len() <= 255
    &&& forall|i: int| 0 <= i < s.len() ==> (#[trigger] s[i] as u32) < 128 && !is_reserved_char(s[i])
    &&& s.len() > 0 ==> s.last() != '.' && s.last() != ' '
    &&& !is_device_name(s)
}

/// What holds of a sanitized `r` made from `s`: it is safe, it is `s` with
/// some characters deleted, and it is `s` itself when `s` is plain.
pub open spec fn sanitized_from(r: Seq<char>, s: Seq<char>) -> bool {
    &&& is_safe_name(r)
    &&& is_subsequence(r, s)
    &&& is_plain_name(s) ==> r == s
}

/// Relies on sanitize_filename::sanitize: it only deletes characters. It
/// deletes the reserved and the control characters, and cuts the name to 255
/// bytes at a character boundary. It deletes a name made only of dots. On
/// Windows it also deletes a device name and trailing dots and spaces. So a
/// plain name comes back unchanged on every platform.
#[verifier::external_body]
pub(crate) fn sanitize_name(s: &str) -> (r: String)
    ensures
        is_safe_name(r@),
        is_subsequence(r@, s@),
        is_plain_name(s@) ==> r@ == s@,
{
    sanitize_filename::sanitize(s)
}

/// The stem of the files of the chapter numbered `number` (from 1): the
/// number with at least two digits, `_`, and the sanitized chapter title.
pub open spec fn stem(number: nat, name: Seq<char>) -> Seq<char> {
    padded2(number) + seq!['_'] + name
}

/// Builds the file stem of the chapter numbered `number`.
pub fn chapter_stem(number: usize, name: &str) -> (r: String)
    ensures
        r@ == stem(number as nat, name@),
{
    let mut r = sequence_label(number);
    push_char(&mut r, '_');
    r.append(name);
    r
}

/// A decimal digit character.
pub open spec fn is_digit(c: char) -> bool {
    '0' <= c && c <= '9'
}

proof fn lemma_digit_char(d: nat, e: nat)
    requires
        d < 10,
        e < 10,
    ensures
        is_digit(digit_char(d)),
        digit_char(d) == digit_char(e) ==> d == e,
        d != 0 ==> digit_char(d) != '0',
{
}

proof fn lemma_decimal_digits(n: nat)
    ensures
        decimal(n).len() >= 1,
        n >= 10 ==> decimal(n).len() >= 2,
        forall|i: int| 0 <= i < decimal(n).len() ==> is_digit(#[trigger] decimal(n)[i]),
        n != 0 ==> decimal(n)[0] != '0',
    decreases n,
{
    lemma_digit_char(n % 10, 0);
    if n >= 10 {
        lemma_decimal_digits(n / 10);
        assert(decimal(n)[0] == decimal(n / 10)[0]);
    }
}

proof fn lemma_decimal_injective(n: nat, m: nat)
    requires
        decimal(n) == decimal(m),
    ensures
        n == m,
    decreases n,
{
    lemma_decimal_digits(n);
    lemma_decimal_digits(m);
    if n >= 10 && m >= 10 {
        let a = decimal(n);
        lemma_digit_char(n % 10, m % 10);
        assert(a[a.len() - 1] == digit_char(n % 10));
        assert(decimal(n / 10) =~= a.drop_last());
        assert(decimal(m / 10) =~= a.drop_last());
        lemma_decimal_injective(n / 10, m / 10);
    } else if n < 10 && m < 10 {
        lemma_digit_char(n, m);
        assert(decimal(n)[0] == decimal(m)[0]);
    }
}

proof fn lemma_padded_digits(n: nat)
    ensures
        padded2(n).len() >= 2,
        forall|i: int| 0 <= i < padded2(n).len() ==> is_digit(#[trigger] padded2(n)[i]),
{
    lemma_decimal_digits(n);
    if n < 10 {
        assert forall|i: int| 0 <= i < padded2(n).len() implies is_digit(#[trigger] padded2(n)[i]) by {
            if i > 0 {
                assert(padded2(n)[i] == decimal(n)[i - 1]);
            }
        }
    }
}

proof fn lemma_padded_injective(n: nat, m: nat)
    requires
        padded2(n) == padded2(m),
    ensures
        n == m,
{
    lemma_decimal_digits(n);
    lemma_decimal_digits(m);
    if n < 10 && m < 10 {
        assert(decimal(n) =~= padded2(n).drop_first());
        assert(decimal(m) =~= padded2(m).drop_first());
        lemma_decimal_injective(n, m);
    } else if n >= 10 && m >= 10 {
        lemma_decimal_injective(n, m);
    } else if n < 10 {
        assert(padded2(n)[0] == '0');
    } else {
        assert(padded2(m)[0] == '0');
    }
}

/// Chapters with different numbers get different file stems, whatever their
/// titles.
pub proof fn lemma_stems_distinct(i: nat, j: nat, a: Seq<char>, b: Seq<char>)
    requires
        i != j,
    ensures
        stem(i, a) != stem(j, b),
{
    let p = padded2(i);
    let q = padded2(j);
    lemma_padded_digits(i);
    lemma_padded_digits(j);
    if stem(i, a) == stem(j, b) {
        if p.len() == q.len() {
            assert(p =~= stem(i, a).subrange(0, p.len() as int));
            assert(q =~= stem(j, b).subrange(0, q.len() as int));
            lemma_padded_injective(i, j);
        } else if p.len() < q.len() {
            assert(stem(i, a)[p.len() as int] == '_');
            assert(stem(j, b)[p.len() as int] == q[p.len() as int]);
        } else {
            assert(stem(j, b)[q.len() as int] == '_');
            assert(stem(i, a)[q.len() as int] == p[q.len() as int]);
        }
    }
}

} // verus!
