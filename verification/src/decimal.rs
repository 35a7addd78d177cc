//! Decimal text of quantities held in ten-thousandths.

use vstd::prelude::*;

verus! {

/// How many ten-thousandths make one unit.
pub const SCALE: u32 = 10_000;

/// The character that writes the digit `d`.
pub open spec fn digit_char(d: int) -> char
    recommends
        0 <= d < 10,
{
    if d == 0 {
        '0'
    } else if d == 1 {
        '1'
    } else if d == 2 {
        '2'
    } else if d == 3 {
        '3'
    } else if d == 4 {
        '4'
    } else if d == 5 {
        '5'
    } else if d == 6 {
        '6'
    } else if d == 7 {
        '7'
    } else if d == 8 {
        '8'
    } else {
        '9'
    }
}

/// The decimal digits of `n`, most significant first, with no leading zero
/// (zero itself is written "0").
pub open spec fn decimal(n: nat) -> Seq<char>
    decreases n,
{
    if n < 10 {
        seq![digit_char(n as int)]
    } else {
        decimal(n / 10).push(digit_char((n % 10) as int))
    }
}

/// The four decimal places that write `f` ten-thousandths, zeros included.
pub open spec fn places(f: nat) -> Seq<char>
    recommends
        f < 10_000,
{
    seq![
        digit_char((f / 1000) as int % 10),
        digit_char((f / 100) as int % 10),
        digit_char((f / 10) as int % 10),
        digit_char(f as int % 10),
    ]
}

/// The size of `v` without its sign.
pub open spec fn magnitude(v: int) -> nat {
    if v < 0 {
        (-v) as nat
    } else {
        v as nat
    }
}

/// The text of `v` ten-thousandths as a decimal number with exactly four
/// places: a minus sign where `v` is negative, the whole units, a point, the
/// places. So 377749 reads "37.7749" and -5 reads "-0.0005".
pub open spec fn fixed4(v: int) -> Seq<char> {
    let sign = if v < 0 {
        seq!['-']
    } else {
        Seq::<char>::empty()
    };
    sign + decimal(magnitude(v) / 10_000) + seq!['.'] + places(magnitude(v) % 10_000)
}

/// The one-character text of a digit.
fn digit_text(d: u32) -> (s: &'static str)
    requires
        d < 10,
    ensures
        s@ == seq![digit_char(d as int)],
{
    proof {
        reveal_strlit("0");
        reveal_strlit("1");
        reveal_strlit("2");
        reveal_strlit("3");
        reveal_strlit("4");
        reveal_strlit("5");
        reveal_strlit("6");
        reveal_strlit("7");
        reveal_strlit("8");
        reveal_strlit("9");
    }
    let s = match d {
        0 => "0",
        1 => "1",
        2 => "2",
        3 => "3",
        4 => "4",
        5 => "5",
        6 => "6",
        7 => "7",
        8 => "8",
        _ => "9",
    };
    assert(s@ =~= seq![digit_char(d as int)]);
    s
}

/// Appends the decimal digits of `n` to `out`.
fn push_decimal(out: &mut String, n: u32)
    ensures
        final(out)@ == old(out)@ + decimal(n as nat),
    decreases n,
{
    if n >= 10 {
        push_decimal(out, n / 10);
    }
    out.append(digit_text(n % 10));
    assert(out@ =~= old(out)@ + decimal(n as nat));
}

/// Writes `v` ten-thousandths as a decimal number with four places.
pub fn format_fixed4(v: i32) -> (text: String)
    ensures
        text@ == fixed4(v as int),
{
    let m: u32 = if v < 0 {
        (-(v as i64)) as u32
    } else {
        v as u32
    };
    let whole: u32 = m / SCALE;
    let part: u32 = m % SCALE;
    let mut text = String::new();
    if v < 0 {
        proof {
            reveal_strlit("-");
        }
        text.append("-");
    }
    push_decimal(&mut text, whole);
    proof {
        reveal_strlit(".");
    }
    text.append(".");
    text.append(digit_text(part / 1000 % 10));
    text.append(digit_text(part / 100 % 10));
    text.append(digit_text(part / 10 % 10));
    text.append(digit_text(part % 10));
    assert(text@ =~= fixed4(v as int));
    text
}

} // verus!
