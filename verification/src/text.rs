//! Rounding of ratios and rendering of numbers as text.

use vstd::prelude::*;

verus! {

/// The character for a single decimal digit.
pub open spec fn digit_char(digit: int) -> char {
    if digit == 0 {
        '0'
    } else if digit == 1 {
        '1'
    } else if digit == 2 {
        '2'
    } else if digit == 3 {
        '3'
    } else if digit == 4 {
        '4'
    } else if digit == 5 {
        '5'
    } else if digit == 6 {
        '6'
    } else if digit == 7 {
        '7'
    } else if digit == 8 {
        '8'
    } else {
        '9'
    }
}

/// Decimal notation of a natural number, without leading zeros.
pub open spec fn decimal(value: nat) -> Seq<char>
    decreases value,
{
    if value < 10 {
        seq![digit_char(value as int)]
    } else {
        decimal(value / 10).push(digit_char((value % 10) as int))
    }
}

/// Decimal notation of an integer, with a leading minus sign below zero.
pub open spec fn signed_decimal(value: int) -> Seq<char> {
    if value < 0 {
        seq!['-'] + decimal((-value) as nat)
    } else {
        decimal(value as nat)
    }
}

/// The ratio `num / den` rounded to the nearest integer, a tie going away
/// from zero. Meaningful for a positive `den`.
pub open spec fn round_half_away(num: int, den: int) -> int {
    if num >= 0 {
        (2 * num + den) / (2 * den)
    } else {
        -((2 * (-num) + den) / (2 * den))
    }
}

/// A number of tenths in the shortest of the forms `12` and `12.3`: the
/// fraction digit is shown only when it is not zero.
pub open spec fn tenths_text(tenths: int) -> Seq<char> {
    let size = if tenths < 0 {
        -tenths
    } else {
        tenths
    };
    let sign = if tenths < 0 {
        seq!['-']
    } else {
        Seq::<char>::empty()
    };
    let fraction = if size % 10 == 0 {
        Seq::<char>::empty()
    } else {
        seq!['.', digit_char(size % 10)]
    };
    sign + decimal((size / 10) as nat) + fraction
}

/// What [`round_format`] shows for the ratio `num / den`.
pub open spec fn rate_text(num: int, den: int) -> Seq<char> {
    tenths_text(round_half_away(10 * num, den))
}

/// Rounding picks the nearest integer: the ratio lies within one half of the
/// result, and a ratio exactly between two integers goes to the one farther
/// from zero.
pub proof fn lemma_round_half_away_is_nearest(num: int, den: int)
    requires
        den > 0,
    ensures
        num >= 0 ==> 2 * round_half_away(num, den) * den - den <= 2 * num < 2 * round_half_away(
            num,
            den,
        ) * den + den,
        num < 0 ==> 2 * round_half_away(num, den) * den - den < 2 * num <= 2 * round_half_away(
            num,
            den,
        ) * den + den,
        round_half_away(-num, den) == -round_half_away(num, den),
{
    let size = if num >= 0 {
        num
    } else {
        -num
    };
    let q = (2 * size + den) / (2 * den);
    assert(q * (2 * den) <= 2 * size + den < q * (2 * den) + 2 * den) by (nonlinear_arith)
        requires
            q == (2 * size + den) / (2 * den),
            den > 0,
    ;
    assert(q * (2 * den) == 2 * q * den) by (nonlinear_arith);
    assert((-q) * den == -(q * den)) by (nonlinear_arith);
    assert(2 * (-q) * den == -(2 * q * den)) by (nonlinear_arith);
    if num == 0 {
        assert((2 * 0 + den) / (2 * den) == 0) by (nonlinear_arith)
            requires
                den > 0,
        ;
    }
}

fn digit_str(digit: u8) -> (text: &'static str)
    requires
        digit < 10,
    ensures
        text@ == seq![digit_char(digit as int)],
{
    proof {
        reveal_strlit("0");
        reveal_strlit("1");
        reveal_strlit("2");
        reveal_strlit("3");
        reveal_strlit("4");
        reveal_strlit("5");
        reveal_strlit("6");
        reveal_strlit("7");
        reveal_strlit("8");
        reveal_strlit("9");
    }
    let text = match digit {
        0 => "0",
        1 => "1",
        2 => "2",
        3 => "3",
        4 => "4",
        5 => "5",
        6 => "6",
        7 => "7",
        8 => "8",
        _ => "9",
    };
    assert(text@ =~= seq![digit_char(digit as int)]);
    text
}

/// Appends the decimal notation of `value` to `out`.
pub fn push_decimal(out: &mut String, value: u64)
    ensures
        final(out)@ == old(out)@ + decimal(value as nat),
    decreases value,
{
    if value >= 10 {
        push_decimal(out, value / 10);
    }
    let digit: u8 = (value % 10) as u8;
    out.append(digit_str(digit));
    assert(final(out)@ =~= old(out)@ + decimal(value as nat));
}

/// Appends `value` in two digits, a leading zero included.
pub fn push_two_digits(out: &mut String, value: u8)
    requires
        value < 100,
    ensures
        final(out)@ == old(out)@ + seq![
            digit_char(value as int / 10),
            digit_char(value as int % 10),
        ],
{
    out.append(digit_str(value / 10));
    out.append(digit_str(value % 10));
    assert(final(out)@ =~= old(out)@ + seq![
        digit_char(value as int / 10),
        digit_char(value as int % 10),
    ]);
}

/// Appends the decimal notation of `value`, with its sign, to `out`.
pub fn push_signed_decimal(out: &mut String, value: i64)
    ensures
        final(out)@ == old(out)@ + signed_decimal(value as int),
{
    if value < 0 {
        proof {
            reveal_strlit("-");
        }
        out.append("-");
        let size: u64 = if value == i64::MIN {
            9_223_372_036_854_775_808u64
        } else {
            (-value) as u64
        };
        push_decimal(out, size);
        assert(final(out)@ =~= old(out)@ + signed_decimal(value as int));
    } else {
        push_decimal(out, value as u64);
    }
}

/// Rounds `num / den` to the nearest integer, a tie going away from zero.
pub fn round_ratio(num: i64, den: i64) -> (rounded: i64)
    requires
        den > 0,
        -0x2000_0000_0000_0000 <= num <= 0x2000_0000_0000_0000,
        den <= 0x2000_0000_0000_0000,
    ensures
        rounded == round_half_away(num as int, den as int),
{
    if num >= 0 {
        assert(0 <= (2 * num + den) / (2 * den) <= 2 * num + den) by (nonlinear_arith)
            requires
                num >= 0,
                den > 0,
        ;
        (2 * num + den) / (2 * den)
    } else {
        assert(0 <= (2 * (-num) + den) / (2 * den) <= 2 * (-num) + den) by (nonlinear_arith)
            requires
                num < 0,
                den > 0,
        ;
        -((2 * (-num) + den) / (2 * den))
    }
}

/// Rounds the ratio of two natural numbers to the nearest integer, a tie
/// going up.
pub fn round_share(num: u64, den: u64) -> (rounded: u64)
    requires
        den > 0,
        num <= 0x2000_0000_0000_0000,
        den <= 0x2000_0000_0000_0000,
    ensures
        rounded == round_half_away(num as int, den as int),
{
    (2 * num + den) / (2 * den)
}

/// Renders a number of tenths, dropping a zero fraction digit.
pub fn format_tenths(tenths: i64) -> (text: String)
    ensures
        text@ == tenths_text(tenths as int),
{
    let mut text = String::new();
    let size: u64 = if tenths < 0 {
        proof {
            reveal_strlit("-");
        }
        text.append("-");
        if tenths == i64::MIN {
            9_223_372_036_854_775_808u64
        } else {
            (-tenths) as u64
        }
    } else {
        tenths as u64
    };
    push_decimal(&mut text, size / 10);
    let fraction: u8 = (size % 10) as u8;
    if fraction != 0 {
        proof {
            reveal_strlit(".");
        }
        text.append(".");
        text.append(digit_str(fraction));
    }
    assert(text@ =~= tenths_text(tenths as int));
    text
}

/// Renders the ratio `num / den` rounded to one decimal place: multiplied by
/// ten, rounded to the nearest integer, and shown without the fraction digit
/// when that digit is zero. A ratio with a zero denominator has no text.
pub fn round_format(num: i32, den: u32) -> (text: Option<String>)
    ensures
        den == 0 <==> text is None,
        den != 0 ==> text->Some_0@ == rate_text(num as int, den as int),
{
    if den == 0 {
        return None;
    }
    let tenths: i64 = round_ratio(10 * (num as i64), den as i64);
    Some(format_tenths(tenths))
}

} // verus!
