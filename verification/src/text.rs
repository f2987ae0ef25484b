//! Exact decimal rendering of the fixed-point quantities, and the small
//! string transformations that finding identifiers are built from.
//!
//! Every number this crate prints is an integer count of a fixed sub-unit
//! (tenths, hundredths, ten-thousandths). Rendering therefore never touches
//! floating point: it is integer division, remainders and digit characters,
//! all specified by [`dec_rep`] and its fixed-point variants.

use vstd::prelude::*;
use vstd::string::StringExecFns;

verus! {

/// The character for one decimal digit value.
pub open spec fn digit_char(d: nat) -> char {
    if d == 0 {
        '0'
    } else if d == 1 {
        '1'
    } else if d == 2 {
        '2'
    } else if d == 3 {
        '3'
    } else if d == 4 {
        '4'
    } else if d == 5 {
        '5'
    } else if d == 6 {
        '6'
    } else if d == 7 {
        '7'
    } else if d == 8 {
        '8'
    } else {
        '9'
    }
}

/// The usual base-ten rendering of a natural number, without leading zeros
/// (a single zero renders as "0").
pub open spec fn dec_rep(n: nat) -> Seq<char>
    decreases n,
{
    if n < 10 {
        seq![digit_char(n)]
    } else {
        dec_rep(n / 10) + seq![digit_char(n % 10)]
    }
}

/// Rendering of a count of tenths with exactly one decimal place.
pub open spec fn fixed1_rep(tenths: nat) -> Seq<char> {
    dec_rep(tenths / 10) + seq!['.'] + seq![digit_char(tenths % 10)]
}

/// Rendering of a count of hundredths with exactly two decimal places.
pub open spec fn fixed2_rep(hundredths: nat) -> Seq<char> {
    dec_rep(hundredths / 100) + seq!['.'] + pad2_rep(hundredths % 100)
}

/// A value below 100 rendered as exactly two digits.
pub open spec fn pad2_rep(r: nat) -> Seq<char> {
    if r < 10 {
        seq!['0'] + dec_rep(r)
    } else {
        dec_rep(r)
    }
}

/// Rendering of a count of ten-thousandths with exactly four decimal places.
pub open spec fn fixed4_rep(tenthousandths: nat) -> Seq<char> {
    dec_rep(tenthousandths / 10000) + seq!['.'] + pad4_rep(tenthousandths % 10000)
}

/// A value below 10000 rendered as exactly four digits.
pub open spec fn pad4_rep(r: nat) -> Seq<char> {
    if r < 10 {
        seq!['0', '0', '0'] + dec_rep(r)
    } else if r < 100 {
        seq!['0', '0'] + dec_rep(r)
    } else if r < 1000 {
        seq!['0'] + dec_rep(r)
    } else {
        dec_rep(r)
    }
}

/// Rendering of a count of tenths the way a plain decimal number would
/// display: the fractional digit appears only when it is nonzero.
pub open spec fn plain1_rep(tenths: nat) -> Seq<char> {
    if tenths % 10 == 0 {
        dec_rep(tenths / 10)
    } else {
        fixed1_rep(tenths)
    }
}

/// Division rounded to the nearest integer, ties rounded up.
pub open spec fn rounded_div(n: nat, d: nat) -> nat {
    (n + d / 2) / d
}

/// One decimal digit as a string slice.
fn digit_str(d: u128) -> (s: &'static str)
    requires
        d < 10,
    ensures
        s@ == seq![digit_char(d as nat)],
{
    proof {
        reveal_strlit("0");
        reveal_strlit("1");
        reveal_strlit("2");
        reveal_strlit("3");
        reveal_strlit("4");
        reveal_strlit("5");
        reveal_strlit("6");
        reveal_strlit("7");
        reveal_strlit("8");
        reveal_strlit("9");
    }
    if d == 0 {
        proof { assert("0"@ =~= seq![digit_char(d as nat)]); }
        "0"
    } else if d == 1 {
        proof { assert("1"@ =~= seq![digit_char(d as nat)]); }
        "1"
    } else if d == 2 {
        proof { assert("2"@ =~= seq![digit_char(d as nat)]); }
        "2"
    } else if d == 3 {
        proof { assert("3"@ =~= seq![digit_char(d as nat)]); }
        "3"
    } else if d == 4 {
        proof { assert("4"@ =~= seq![digit_char(d as nat)]); }
        "4"
    } else if d == 5 {
        proof { assert("5"@ =~= seq![digit_char(d as nat)]); }
        "5"
    } else if d == 6 {
        proof { assert("6"@ =~= seq![digit_char(d as nat)]); }
        "6"
    } else if d == 7 {
        proof { assert("7"@ =~= seq![digit_char(d as nat)]); }
        "7"
    } else if d == 8 {
        proof { assert("8"@ =~= seq![digit_char(d as nat)]); }
        "8"
    } else {
        proof { assert("9"@ =~= seq![digit_char(d as nat)]); }
        "9"
    }
}

/// Base-ten rendering of `n`.
pub fn fmt_u128(n: u128) -> (r: String)
    ensures
        r@ == dec_rep(n as nat),
    decreases n,
{
    if n < 10 {
        digit_str(n).to_owned()
    } else {
        let mut s = fmt_u128(n / 10);
        s.append(digit_str(n % 10));
        s
    }
}

/// Rendering of a count of tenths with one decimal place, e.g. 605 -> "60.5".
pub fn fmt_fixed1(tenths: u128) -> (r: String)
    ensures
        r@ == fixed1_rep(tenths as nat),
{
    proof { reveal_strlit("."); }
    let mut s = fmt_u128(tenths / 10);
    s.append(".");
    s.append(digit_str(tenths % 10));
    proof {
        assert("."@ =~= seq!['.']);
    }
    s
}

/// Rendering of a count of hundredths with two decimal places,
/// e.g. 1200 -> "12.00".
pub fn fmt_fixed2(hundredths: u128) -> (r: String)
    ensures
        r@ == fixed2_rep(hundredths as nat),
{
    proof {
        reveal_strlit(".");
        reveal_strlit("0");
        assert("."@ =~= seq!['.']);
        assert("0"@ =~= seq!['0']);
    }
    let mut s = fmt_u128(hundredths / 100);
    s.append(".");
    let r = hundredths % 100;
    if r < 10 {
        s.append("0");
    }
    let tail = fmt_u128(r);
    s.append(tail.as_str());
    s
}

/// Rendering of a count of ten-thousandths with four decimal places,
/// e.g. 1000 -> "0.1000".
pub fn fmt_fixed4(tenthousandths: u128) -> (r: String)
    ensures
        r@ == fixed4_rep(tenthousandths as nat),
{
    proof {
        reveal_strlit(".");
        reveal_strlit("000");
        reveal_strlit("00");
        reveal_strlit("0");
        assert("."@ =~= seq!['.']);
        assert("000"@ =~= seq!['0', '0', '0']);
        assert("00"@ =~= seq!['0', '0']);
        assert("0"@ =~= seq!['0']);
    }
    let mut s = fmt_u128(tenthousandths / 10000);
    s.append(".");
    let r = tenthousandths % 10000;
    if r < 10 {
        s.append("000");
    } else if r < 100 {
        s.append("00");
    } else if r < 1000 {
        s.append("0");
    }
    let tail = fmt_u128(r);
    s.append(tail.as_str());
    s
}

/// Rendering of a count of tenths as a plain number: "50" for 500 tenths,
/// "50.5" for 505 tenths.
pub fn fmt_plain1(tenths: u128) -> (r: String)
    ensures
        r@ == plain1_rep(tenths as nat),
{
    if tenths % 10 == 0 {
        fmt_u128(tenths / 10)
    } else {
        fmt_fixed1(tenths)
    }
}

/// Division rounded to nearest, ties up: the displayed value of a quantity
/// held in a finer sub-unit.
pub fn round_div(n: u128, d: u128) -> (r: u128)
    requires
        1 <= d,
        n + d / 2 <= u128::MAX,
    ensures
        r == rounded_div(n as nat, d as nat),
{
    (n + d / 2) / d
}

/// Upper-case folding as the standard library performs it; the result is a
/// function of the input characters alone.
pub uninterp spec fn upper_of(s: Seq<char>) -> Seq<char>;

/// Relies on str::to_uppercase: Unicode upper-case folding, a pure function
/// of the input characters; an empty input gives an empty result.
#[verifier::external_body]
fn to_upper(s: &str) -> (r: String)
    ensures
        r@ == upper_of(s@),
        s@.len() == 0 ==> r@.len() == 0,
{
    s.to_uppercase()
}

/// Each space replaced by a hyphen, all other characters kept.
pub open spec fn hyphens_rep(s: Seq<char>) -> Seq<char> {
    s.map_values(|c: char| if c == ' ' { '-' } else { c })
}

/// Relies on str::replace with a single-character pattern and a
/// single-character replacement: every space becomes a hyphen, character for
/// character.
#[verifier::external_body]
fn replace_spaces(s: &str) -> (r: String)
    ensures
        r@ == hyphens_rep(s@),
{
    s.replace(' ', "-")
}

/// The identifier slug of a pattern name: upper-cased, spaces as hyphens.
pub open spec fn slug_rep(s: Seq<char>) -> Seq<char> {
    hyphens_rep(upper_of(s))
}

/// Turn a pattern name into its identifier slug, e.g. a name of two words
/// into one hyphenated upper-case token.
pub fn slug(s: &str) -> (r: String)
    ensures
        r@ == slug_rep(s@),
{
    let upper = to_upper(s);
    replace_spaces(upper.as_str())
}

} // verus!
