//! Rendering of `major.minor.patch` version triples as decimal text.

use vstd::prelude::*;

verus! {

/// The ASCII character of a decimal digit.
pub open spec fn digit_char(d: nat) -> char
    recommends
        d < 10,
{
    ((d + 48) as u8) as char
}

/// True for the characters `0` through `9`.
pub open spec fn is_digit(c: char) -> bool {
    '0' <= c && c <= '9'
}

/// The decimal representation of `n`, most significant digit first, with no
/// leading zeros (zero itself is the single digit `0`).
pub open spec fn decimal(n: nat) -> Seq<char>
    decreases n,
{
    if n < 10 {
        seq![digit_char(n)]
    } else {
        decimal(n / 10) + seq![digit_char(n % 10)]
    }
}

/// A non-empty run of decimal digits.
pub open spec fn is_digits(s: Seq<char>) -> bool {
    s.len() > 0 && forall|i: int| 0 <= i < s.len() ==> #[trigger] is_digit(s[i])
}

/// The text `"{major}.{minor}.{patch}"` in decimal.
pub open spec fn semv_text(major: nat, minor: nat, patch: nat) -> Seq<char> {
    decimal(major) + seq!['.'] + decimal(minor) + seq!['.'] + decimal(patch)
}

/// Text of the shape `digits.digits.digits`: three non-empty runs of decimal
/// digits separated by exactly two dots.
pub open spec fn is_semver_shape(s: Seq<char>) -> bool {
    exists|a: Seq<char>, b: Seq<char>, c: Seq<char>|
        is_digits(a) && is_digits(b) && is_digits(c) && s == a + seq!['.'] + b + seq!['.'] + c
}

/// Every decimal representation is a non-empty run of digits.
pub proof fn lemma_decimal_is_digits(n: nat)
    ensures
        is_digits(decimal(n)),
    decreases n,
{
    if n >= 10 {
        lemma_decimal_is_digits(n / 10);
        let s = decimal(n);
        assert forall|i: int| 0 <= i < s.len() implies #[trigger] is_digit(s[i]) by {
            if i < decimal(n / 10).len() {
                assert(s[i] == decimal(n / 10)[i]);
            }
        }
    }
}

/// Any three numbers render as `digits.digits.digits`: exactly three decimal
/// fields separated by exactly two dots.
pub proof fn semv_text_has_semver_shape(major: nat, minor: nat, patch: nat)
    ensures
        is_semver_shape(semv_text(major, minor, patch)),
{
    lemma_decimal_is_digits(major);
    lemma_decimal_is_digits(minor);
    lemma_decimal_is_digits(patch);
    assert(is_digits(decimal(major)) && is_digits(decimal(minor)) && is_digits(decimal(patch))
        && semv_text(major, minor, patch) == decimal(major) + seq!['.'] + decimal(minor) + seq![
        '.'] + decimal(patch));
}

/// The one-character text of the digit `d`.
fn digit_str(d: u32) -> (r: &'static str)
    requires
        d < 10,
    ensures
        r@ == seq![digit_char(d as nat)],
{
    proof {
        reveal_strlit("0");
        reveal_strlit("1");
        reveal_strlit("2");
        reveal_strlit("3");
        reveal_strlit("4");
        reveal_strlit("5");
        reveal_strlit("6");
        reveal_strlit("7");
        reveal_strlit("8");
        reveal_strlit("9");
    }
    match d {
        0 => "0",
        1 => "1",
        2 => "2",
        3 => "3",
        4 => "4",
        5 => "5",
        6 => "6",
        7 => "7",
        8 => "8",
        _ => "9",
    }
}

/// Appends the decimal representation of `n` to `s`.
fn append_decimal(s: &mut String, n: u32)
    ensures
        final(s)@ == old(s)@ + decimal(n as nat),
    decreases n,
{
    if n >= 10 {
        append_decimal(s, n / 10);
    }
    s.append(digit_str(n % 10));
    assert(s@ =~= old(s)@ + decimal(n as nat));
}

/// Renders a version triple as `"{major}.{minor}.{patch}"` in decimal.
pub fn semv_version_of(major: u32, minor: u32, patch: u32) -> (r: String)
    ensures
        r@ == semv_text(major as nat, minor as nat, patch as nat),
        is_semver_shape(r@),
{
    let mut s = String::new();
    append_decimal(&mut s, major);
    s.append(".");
    append_decimal(&mut s, minor);
    s.append(".");
    append_decimal(&mut s, patch);
    proof {
        reveal_strlit(".");
    }
    assert(s@ =~= semv_text(major as nat, minor as nat, patch as nat));
    proof {
        semv_text_has_semver_shape(major as nat, minor as nat, patch as nat);
    }
    s
}

} // verus!
