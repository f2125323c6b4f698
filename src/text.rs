//! The two text labels: the rounded percentage, font descriptions, and centring.
use vstd::prelude::*;
use vstd::string::*;
use crate::geometry::{trunc_div, SUBPIXELS};

verus! {

/// Progress is counted in millionths: this value is the whole bar.
pub const FRACTION_ONE: i32 = 1_000_000;

/// The decimal digit for `d < 10`.
pub open spec fn digit_char(d: nat) -> char {
    if d == 0 { '0' }
    else if d == 1 { '1' }
    else if d == 2 { '2' }
    else if d == 3 { '3' }
    else if d == 4 { '4' }
    else if d == 5 { '5' }
    else if d == 6 { '6' }
    else if d == 7 { '7' }
    else if d == 8 { '8' }
    else { '9' }
}

/// The decimal digits of `n`, most significant first, without leading zeros.
pub open spec fn digits(n: nat) -> Seq<char>
    decreases n,
{
    if n < 10 {
        seq![digit_char(n)]
    } else {
        digits(n / 10).push(digit_char(n % 10))
    }
}

/// An integer written in decimal, with a leading `-` when it is negative.
pub open spec fn decimal(n: int) -> Seq<char> {
    if n < 0 {
        seq!['-'] + digits((-n) as nat)
    } else {
        digits(n as nat)
    }
}

/// `fraction` millionths as a whole percentage, rounded half away from zero.
pub open spec fn percent_of(fraction: int) -> int {
    if fraction >= 0 {
        (fraction + 5000) / 10000
    } else {
        -((-fraction + 5000) / 10000)
    }
}

/// The font description `"<family> <size>"` handed to the text layout.
pub open spec fn font_spec(family: Seq<char>, size: int) -> Seq<char> {
    family + seq![' '] + decimal(size)
}

/// Left edge (sub-pixel units) of a label of `text_width` layout units centred on
/// `center_x` (sub-pixel units): the half width is taken in whole pixels, rounded down.
pub open spec fn label_left_of(center_x: int, text_width: int) -> int {
    center_x - trunc_div(trunc_div(text_width, SUBPIXELS as int), 2) * SUBPIXELS
}

fn digit_str(d: u64) -> (s: &'static str)
    requires
        d < 10,
    ensures
        s@ == seq![digit_char(d as nat)],
{
    proof {
        reveal_strlit("0");
        reveal_strlit("1");
        reveal_strlit("2");
        reveal_strlit("3");
        reveal_strlit("4");
        reveal_strlit("5");
        reveal_strlit("6");
        reveal_strlit("7");
        reveal_strlit("8");
        reveal_strlit("9");
    }
    if d == 0 { "0" }
    else if d == 1 { "1" }
    else if d == 2 { "2" }
    else if d == 3 { "3" }
    else if d == 4 { "4" }
    else if d == 5 { "5" }
    else if d == 6 { "6" }
    else if d == 7 { "7" }
    else if d == 8 { "8" }
    else { "9" }
}

fn push_digits(out: &mut String, n: u64)
    ensures
        final(out)@ == old(out)@ + digits(n as nat),
    decreases n,
{
    if n >= 10 {
        push_digits(out, n / 10);
    }
    out.append(digit_str(n % 10));
    assert(final(out)@ =~= old(out)@ + digits(n as nat));
}

/// Appends `n` in decimal to `out`.
pub fn push_decimal(out: &mut String, n: i64)
    ensures
        final(out)@ == old(out)@ + decimal(n as int),
{
    if n < 0 {
        proof {
            reveal_strlit("-");
        }
        out.append("-");
        let m: u64 = if n == i64::MIN {
            (i64::MAX as u64) + 1
        } else {
            (-n) as u64
        };
        push_digits(out, m);
        assert(final(out)@ =~= old(out)@ + decimal(n as int));
    } else {
        push_digits(out, n as u64);
    }
}

/// `n` written in decimal.
pub fn decimal_string(n: i64) -> (s: String)
    ensures
        s@ == decimal(n as int),
{
    let mut s = String::new();
    push_decimal(&mut s, n);
    assert(s@ =~= decimal(n as int));
    s
}

/// The whole percentage shown for `fraction` millionths.
pub fn percent(fraction: i32) -> (p: i32)
    ensures
        p == percent_of(fraction as int),
{
    let f = fraction as i64;
    if f >= 0 {
        ((f + 5000) / 10000) as i32
    } else {
        (-((-f + 5000) / 10000)) as i32
    }
}

/// The text of the percentage label: the rounded percentage as a plain integer.
pub fn percent_label(fraction: i32) -> (s: String)
    ensures
        s@ == decimal(percent_of(fraction as int)),
{
    decimal_string(percent(fraction) as i64)
}

/// The font description for `family` at `size` points.
pub fn font_description(family: &str, size: i32) -> (s: String)
    ensures
        s@ == font_spec(family@, size as int),
{
    let mut s = String::from_str(family);
    proof {
        reveal_strlit(" ");
    }
    s.append(" ");
    push_decimal(&mut s, size as i64);
    assert(s@ =~= font_spec(family@, size as int));
    s
}

/// Where a label `text_width` layout units wide starts, so that it is centred on
/// `center_x`.
pub fn label_left(center_x: i64, text_width: i32) -> (x: i64)
    requires
        i32::MIN * SUBPIXELS <= center_x <= i32::MAX * SUBPIXELS,
    ensures
        x == label_left_of(center_x as int, text_width as int),
{
    let half = (text_width / (SUBPIXELS as i32)) / 2;
    center_x - (half as i64) * SUBPIXELS
}

} // verus!
