//! Building text: natural numbers and fixed-point decimals.

use vstd::prelude::*;
use vstd::string::StringExecFns;
use crate::fixed::{FINE, SCALE};

verus! {

/// The text of one decimal digit.
pub open spec fn digit_text(d: int) -> Seq<char> {
    if d == 0 {
        "0"@
    } else if d == 1 {
        "1"@
    } else if d == 2 {
        "2"@
    } else if d == 3 {
        "3"@
    } else if d == 4 {
        "4"@
    } else if d == 5 {
        "5"@
    } else if d == 6 {
        "6"@
    } else if d == 7 {
        "7"@
    } else if d == 8 {
        "8"@
    } else {
        "9"@
    }
}

/// The decimal text of a natural number, without leading zeros.
pub open spec fn natural_text(n: nat) -> Seq<char>
    decreases n,
{
    if n < 10 {
        digit_text(n as int)
    } else {
        natural_text(n / 10) + digit_text((n % 10) as int)
    }
}

/// The last `width` decimal digits of a natural number, with leading zeros.
pub open spec fn padded_text(n: nat, width: nat) -> Seq<char>
    decreases width,
{
    if width == 0 {
        Seq::empty()
    } else {
        padded_text(n / 10, (width - 1) as nat) + digit_text((n % 10) as int)
    }
}

/// Ten to the power `k`.
pub open spec fn ten_to(k: nat) -> nat
    decreases k,
{
    if k == 0 {
        1
    } else {
        10 * ten_to((k - 1) as nat)
    }
}

/// A ratio in units of `1 / SCALE` rounded to `places` decimal places, half
/// away from zero, in units of the last place; the sign is left out.
pub open spec fn rounded_magnitude(value: int, places: nat) -> nat {
    let magnitude = if value < 0 {
        -value
    } else {
        value
    };
    ((magnitude * ten_to(places) + SCALE / 2) / (SCALE as int)) as nat
}

/// The decimal text of a ratio in units of `1 / SCALE` with `places`
/// decimal places: a minus sign for a negative value, the whole part, and
/// for `places > 0` a point and the decimal places.
pub open spec fn decimal_text(value: int, places: nat) -> Seq<char> {
    let rounded = rounded_magnitude(value, places);
    let sign = if value < 0 {
        "-"@
    } else {
        Seq::empty()
    };
    let whole = natural_text(rounded / ten_to(places));
    if places == 0 {
        sign + whole
    } else {
        sign + whole + "."@ + padded_text(rounded % ten_to(places), places)
    }
}

/// A value in units of `1 / FINE` rounded to `places` decimal places, half
/// away from zero, in units of the last place; the sign is left out.
pub open spec fn fine_magnitude(value: int, places: nat) -> nat {
    let magnitude = if value < 0 {
        -value
    } else {
        value
    };
    ((magnitude * ten_to(places) + FINE / 2) / (FINE as int)) as nat
}

/// The decimal text of a value in units of `1 / FINE` with `places`
/// decimal places, rounded once: a minus sign for a negative value, the
/// whole part, and for `places > 0` a point and the decimal places.
pub open spec fn fine_text(value: int, places: nat) -> Seq<char> {
    let rounded = fine_magnitude(value, places);
    let sign = if value < 0 {
        "-"@
    } else {
        Seq::empty()
    };
    let whole = natural_text(rounded / ten_to(places));
    if places == 0 {
        sign + whole
    } else {
        sign + whole + "."@ + padded_text(rounded % ten_to(places), places)
    }
}

/// The text of a digit.
pub fn digit_str(d: u8) -> (t: &'static str)
    requires
        d < 10,
    ensures
        t@ == digit_text(d as int),
{
    if d == 0 {
        "0"
    } else if d == 1 {
        "1"
    } else if d == 2 {
        "2"
    } else if d == 3 {
        "3"
    } else if d == 4 {
        "4"
    } else if d == 5 {
        "5"
    } else if d == 6 {
        "6"
    } else if d == 7 {
        "7"
    } else if d == 8 {
        "8"
    } else {
        "9"
    }
}

/// Appends the decimal text of a natural number.
pub fn push_natural(s: &mut String, n: u128)
    ensures
        final(s)@ == old(s)@ + natural_text(n as nat),
    decreases n,
{
    if n >= 10 {
        push_natural(s, n / 10);
    }
    s.append(digit_str((n % 10) as u8));
    proof {
        if n >= 10 {
            assert((old(s)@ + natural_text((n / 10) as nat)) + digit_text((n % 10) as int) =~= old(
                s,
            )@ + natural_text(n as nat));
        }
    }
}

/// Appends the last `width` decimal digits of a natural number.
pub fn push_padded(s: &mut String, n: u128, width: u8)
    ensures
        final(s)@ == old(s)@ + padded_text(n as nat, width as nat),
    decreases width,
{
    if width > 0 {
        push_padded(s, n / 10, width - 1);
        s.append(digit_str((n % 10) as u8));
        proof {
            assert((old(s)@ + padded_text((n / 10) as nat, (width - 1) as nat)) + digit_text(
                (n % 10) as int,
            ) =~= old(s)@ + padded_text(n as nat, width as nat));
        }
    } else {
        assert(final(s)@ =~= old(s)@ + padded_text(n as nat, width as nat));
    }
}

/// Ten to the power `k`, for `k` up to eight.
pub fn power_of_ten(k: u8) -> (p: u128)
    requires
        k <= 8,
    ensures
        p == ten_to(k as nat),
        1 <= p <= 100_000_000,
{
    proof {
        lemma_powers_of_ten();
    }
    if k == 0 {
        1
    } else if k == 1 {
        10
    } else if k == 2 {
        100
    } else if k == 3 {
        1_000
    } else if k == 4 {
        10_000
    } else if k == 5 {
        100_000
    } else if k == 6 {
        1_000_000
    } else if k == 7 {
        10_000_000
    } else {
        100_000_000
    }
}

/// The powers of ten up to the eighth.
pub proof fn lemma_powers_of_ten()
    ensures
        ten_to(0) == 1,
        ten_to(1) == 10,
        ten_to(2) == 100,
        ten_to(3) == 1_000,
        ten_to(4) == 10_000,
        ten_to(5) == 100_000,
        ten_to(6) == 1_000_000,
        ten_to(7) == 10_000_000,
        ten_to(8) == 100_000_000,
{
    assert(ten_to(0) == 1);
    assert(ten_to(1) == 10 * ten_to(0));
    assert(ten_to(2) == 10 * ten_to(1));
    assert(ten_to(3) == 10 * ten_to(2));
    assert(ten_to(4) == 10 * ten_to(3));
    assert(ten_to(5) == 10 * ten_to(4));
    assert(ten_to(6) == 10 * ten_to(5));
    assert(ten_to(7) == 10 * ten_to(6));
    assert(ten_to(8) == 10 * ten_to(7));
}

/// Largest magnitude that is written as a decimal.
pub const TEXT_LIMIT: i128 = 1_000_000_000_000_000_000_000_000_000;

/// Appends the decimal text of a ratio with `places` decimal places.
pub fn push_decimal(s: &mut String, value: i128, places: u8)
    requires
        places <= 8,
        -TEXT_LIMIT <= value <= TEXT_LIMIT,
    ensures
        final(s)@ == old(s)@ + decimal_text(value as int, places as nat),
{
    let unit = power_of_ten(places);
    let magnitude: u128 = if value < 0 {
        (-value) as u128
    } else {
        value as u128
    };
    assert(magnitude * unit <= TEXT_LIMIT * 100_000_000) by (nonlinear_arith)
        requires
            0 <= magnitude <= TEXT_LIMIT,
            0 <= unit <= 100_000_000,
    ;
    let rounded: u128 = (magnitude * unit + (SCALE as u128) / 2) / (SCALE as u128);
    if value < 0 {
        s.append("-");
    }
    let ghost signed = s@;
    push_natural(s, rounded / unit);
    if places > 0 {
        s.append(".");
        push_padded(s, rounded % unit, places);
    }
    proof {
        assert(final(s)@ =~= old(s)@ + decimal_text(value as int, places as nat));
    }
}

/// Largest magnitude in fine units that is written as a decimal.
pub const FINE_TEXT_LIMIT: i128 = 100_000_000_000_000_000_000_000_000_000;

/// Appends the decimal text of a value in fine units with `places` decimal
/// places.
pub fn push_fine(s: &mut String, value: i128, places: u8)
    requires
        places <= 8,
        -FINE_TEXT_LIMIT <= value <= FINE_TEXT_LIMIT,
    ensures
        final(s)@ == old(s)@ + fine_text(value as int, places as nat),
{
    let unit = power_of_ten(places);
    let magnitude: u128 = if value < 0 {
        (-value) as u128
    } else {
        value as u128
    };
    assert(magnitude * unit <= FINE_TEXT_LIMIT * 100_000_000) by (nonlinear_arith)
        requires
            0 <= magnitude <= FINE_TEXT_LIMIT,
            0 <= unit <= 100_000_000,
    ;
    let rounded: u128 = (magnitude * unit + (FINE as u128) / 2) / (FINE as u128);
    if value < 0 {
        s.append("-");
    }
    push_natural(s, rounded / unit);
    if places > 0 {
        s.append(".");
        push_padded(s, rounded % unit, places);
    }
    proof {
        assert(final(s)@ =~= old(s)@ + fine_text(value as int, places as nat));
    }
}

/// The decimal text of a value in fine units with `places` decimal places.
pub fn fine_string(value: i128, places: u8) -> (t: String)
    requires
        places <= 8,
        -FINE_TEXT_LIMIT <= value <= FINE_TEXT_LIMIT,
    ensures
        t@ == fine_text(value as int, places as nat),
{
    let mut t = String::new();
    push_fine(&mut t, value, places);
    t
}

/// The texts of a sequence of strings.
pub open spec fn texts(parts: Seq<String>) -> Seq<Seq<char>> {
    Seq::new(parts.len(), |i: int| parts[i]@)
}

/// The parts in order, with `sep` between each two.
pub open spec fn joined(parts: Seq<Seq<char>>, sep: Seq<char>) -> Seq<char>
    decreases parts.len(),
{
    if parts.len() == 0 {
        Seq::empty()
    } else if parts.len() == 1 {
        parts[0]
    } else {
        joined(parts.drop_last(), sep) + sep + parts.last()
    }
}

/// Joins strings with a separator.
pub fn join_strings(parts: &Vec<String>, sep: &str) -> (out: String)
    ensures
        out@ == joined(texts(parts@), sep@),
{
    let mut out = String::new();
    let mut i: usize = 0;
    while i < parts.len()
        invariant
            i <= parts.len(),
            out@ == joined(texts(parts@).subrange(0, i as int), sep@),
        decreases parts.len() - i,
    {
        let ghost before = texts(parts@).subrange(0, i as int);
        let ghost after = texts(parts@).subrange(0, i + 1);
        if i > 0 {
            out.append(sep);
        }
        out.append(parts[i].as_str());
        proof {
            assert(after.drop_last() =~= before);
            assert(after.last() == parts[i as int]@);
            if i == 0 {
                assert(out@ =~= parts[0]@);
            }
        }
        i = i + 1;
    }
    proof {
        assert(texts(parts@).subrange(0, parts.len() as int) =~= texts(parts@));
    }
    out
}


/// The texts of a sequence with one more string are the texts of the
/// sequence with one more text.
pub proof fn lemma_texts_push(parts: Seq<String>, s: String)
    ensures
        texts(parts.push(s)) == texts(parts).push(s@),
{
    assert(texts(parts.push(s)) =~= texts(parts).push(s@));
}


/// The decimal text of an integer: a minus sign for a negative one, then
/// its magnitude.
pub open spec fn integer_text(v: int) -> Seq<char> {
    if v < 0 {
        "-"@ + natural_text((-v) as nat)
    } else {
        natural_text(v as nat)
    }
}

/// Appends the decimal text of an integer.
pub fn push_integer(s: &mut String, v: i64)
    ensures
        final(s)@ == old(s)@ + integer_text(v as int),
{
    if v < 0 {
        s.append("-");
        push_natural(s, (-(v as i128)) as u128);
        proof {
            assert(final(s)@ =~= old(s)@ + integer_text(v as int));
        }
    } else {
        push_natural(s, v as u128);
    }
}

/// The decimal text of an integer as a string.
pub fn integer_string(v: i64) -> (s: String)
    ensures
        s@ == integer_text(v as int),
{
    let mut s = String::new();
    push_integer(&mut s, v);
    proof {
        assert(Seq::<char>::empty() + integer_text(v as int) =~= integer_text(v as int));
    }
    s
}

} // verus!
