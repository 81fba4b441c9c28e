//! The text on display: a smoothed utilisation, held in hundredths of a percent,
//! written as a percentage with two decimal places, or a placeholder while no
//! sample has been taken.

use vstd::prelude::*;

verus! {

/// The character of a decimal digit.
pub open spec fn digit_char(digit: int) -> char
    recommends
        0 <= digit < 10,
{
    if digit == 0 {
        '0'
    } else if digit == 1 {
        '1'
    } else if digit == 2 {
        '2'
    } else if digit == 3 {
        '3'
    } else if digit == 4 {
        '4'
    } else if digit == 5 {
        '5'
    } else if digit == 6 {
        '6'
    } else if digit == 7 {
        '7'
    } else if digit == 8 {
        '8'
    } else {
        '9'
    }
}

/// A number in decimal, without leading zeros.
pub open spec fn decimal(number: nat) -> Seq<char>
    decreases number,
{
    if number < 10 {
        seq![digit_char(number as int)]
    } else {
        decimal(number / 10).push(digit_char((number % 10) as int))
    }
}

/// A value in hundredths of a percent as a percentage: the whole percents, a
/// point, two decimals and a percent sign.
pub open spec fn percent_text(hundredths: u32) -> Seq<char> {
    decimal((hundredths / 100) as nat).push('.').push(
        digit_char((hundredths % 100 / 10) as int),
    ).push(digit_char((hundredths % 10) as int)).push('%')
}

/// What stands on display while no sample has been taken.
pub open spec fn placeholder_text() -> Seq<char> {
    seq!['-', '-', '-']
}

/// What stands on display for a smoothed value, or for the lack of one.
pub open spec fn display_text(smoothed: Option<u32>) -> Seq<char> {
    match smoothed {
        Some(hundredths) => percent_text(hundredths),
        None => placeholder_text(),
    }
}

/// The one-character text of a decimal digit.
fn digit_str(digit: u32) -> (text: &'static str)
    requires
        digit < 10,
    ensures
        text@ == seq![digit_char(digit as int)],
{
    proof {
        reveal_strlit("0");
        reveal_strlit("1");
        reveal_strlit("2");
        reveal_strlit("3");
        reveal_strlit("4");
        reveal_strlit("5");
        reveal_strlit("6");
        reveal_strlit("7");
        reveal_strlit("8");
        reveal_strlit("9");
    }
    let text = match digit {
        0 => "0",
        1 => "1",
        2 => "2",
        3 => "3",
        4 => "4",
        5 => "5",
        6 => "6",
        7 => "7",
        8 => "8",
        _ => "9",
    };
    assert(text@ =~= seq![digit_char(digit as int)]);
    text
}

/// Appends a number in decimal to a text.
fn push_decimal(text: &mut String, number: u32)
    ensures
        final(text)@ == old(text)@ + decimal(number as nat),
    decreases number,
{
    if number >= 10 {
        push_decimal(text, number / 10);
    }
    text.append(digit_str(number % 10));
    assert(text@ =~= old(text)@ + decimal(number as nat));
}

/// Writes a value in hundredths of a percent as a percentage with two decimal
/// places, such as `12.34%`.
pub fn format_percent(hundredths: u32) -> (text: String)
    ensures
        text@ == percent_text(hundredths),
{
    let mut text = String::new();
    push_decimal(&mut text, hundredths / 100);
    proof {
        reveal_strlit(".");
        reveal_strlit("%");
    }
    text.append(".");
    text.append(digit_str(hundredths % 100 / 10));
    text.append(digit_str(hundredths % 10));
    text.append("%");
    assert(text@ =~= percent_text(hundredths));
    text
}

/// Writes what stands on display: the percentage for a smoothed value, and
/// `---` while there is none.
pub fn display_value(smoothed: Option<u32>) -> (text: String)
    ensures
        text@ == display_text(smoothed),
{
    match smoothed {
        Some(hundredths) => format_percent(hundredths),
        None => {
            proof {
                reveal_strlit("---");
            }
            let text = String::from_str("---");
            assert(text@ =~= placeholder_text());
            text
        },
    }
}

} // verus!
