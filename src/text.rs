//! Building text: decimal numbers, fixed-point seconds, joined paths.
use vstd::prelude::*;
use vstd::string::StringExecFns;

verus! {

/// The character of a decimal digit.
pub open spec fn digit_char(d: nat) -> char
    recommends
        d < 10,
{
    ((d + 48) as u8) as char
}

/// The shortest decimal writing of `n`.
pub open spec fn decimal(n: nat) -> Seq<char>
    decreases n,
{
    if n < 10 {
        seq![digit_char(n)]
    } else {
        decimal(n / 10).push(digit_char(n % 10))
    }
}

/// Relies on String::push: appends one character at the end.
#[verifier::external_body]
pub(crate) fn push_char(s: &mut String, c: char)
    ensures
        final(s)@ == old(s)@.push(c),
{
    s.push(c)
}

/// Appends the decimal writing of `n`.
pub fn push_decimal(s: &mut String, n: u128)
    ensures
        final(s)@ == old(s)@ + decimal(n as nat),
    decreases n,
{
    if n >= 10 {
        push_decimal(s, n / 10);
    }
    let d: u8 = (n % 10) as u8;
    push_char(s, (d + 48) as char);
    assert(final(s)@ =~= old(s)@ + decimal(n as nat));
}

/// `n` written with at least two digits, padded with a leading zero.
pub open spec fn padded2(n: nat) -> Seq<char> {
    if n < 10 {
        seq!['0'] + decimal(n)
    } else {
        decimal(n)
    }
}

/// The absolute value of `x`.
pub open spec fn abs(x: int) -> nat {
    if x < 0 {
        (-x) as nat
    } else {
        x as nat
    }
}

/// A count of milliseconds written as seconds with exactly three decimals,
/// with a leading `-` when it is negative (`15000` gives `15.000`).
pub open spec fn seconds_text(ms: int) -> Seq<char> {
    let a = abs(ms);
    let sign = if ms < 0 {
        seq!['-']
    } else {
        Seq::<char>::empty()
    };
    sign + decimal(a / 1000) + seq![
        '.',
        digit_char((a % 1000) / 100),
        digit_char((a % 100) / 10),
        digit_char(a % 10),
    ]
}

/// `dir` and `name` joined by one `/`.
pub open spec fn joined(dir: Seq<char>, name: Seq<char>) -> Seq<char> {
    dir + seq!['/'] + name
}

/// Writes `n` with at least two digits (`7` gives `07`, `12` gives `12`).
pub fn sequence_label(n: usize) -> (r: String)
    ensures
        r@ == padded2(n as nat),
{
    let mut r = String::new();
    if n < 10 {
        push_char(&mut r, '0');
    }
    push_decimal(&mut r, n as u128);
    assert(r@ =~= padded2(n as nat));
    r
}

/// Writes a count of milliseconds as seconds with three decimals.
pub fn format_seconds(ms: i128) -> (r: String)
    ensures
        r@ == seconds_text(ms as int),
{
    let mut r = String::new();
    let a: u128 = if ms < 0 {
        push_char(&mut r, '-');
        ((-(ms + 1)) as u128) + 1
    } else {
        ms as u128
    };
    assert(a as nat == abs(ms as int));
    push_decimal(&mut r, a / 1000);
    push_char(&mut r, '.');
    push_char(&mut r, (((a % 1000) / 100) as u8 + 48) as char);
    push_char(&mut r, (((a % 100) / 10) as u8 + 48) as char);
    push_char(&mut r, ((a % 10) as u8 + 48) as char);
    assert(r@ =~= seconds_text(ms as int));
    r
}

/// Joins a directory and a name with `/`.
pub fn join_path(dir: &str, name: &str) -> (r: String)
    ensures
        r@ == joined(dir@, name@),
{
    let mut r = String::from_str(dir);
    push_char(&mut r, '/');
    r.append(name);
    r
}

} // verus!
