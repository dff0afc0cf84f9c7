use crate::chinese::push_char;
use crate::digit_sequences::{decimal_digits, digit_sequence_of, digit_vec};
use vstd::prelude::*;

verus! {

/// The error scenarios of this crate.
#[derive(Debug, Clone, PartialEq, Eq, PartialOrd, Ord, Hash)]
pub enum CrateError {
    ZeroDenominator,
    DimesOutOfRange(u8),
    CentsOutOfRange(u8),
    MonthOutOfRange(u8),
    DayOutOfRange(u8),
    WeekDayOutOfRange(u8),
    HourOutOfRange(u8),
    MinuteOutOfRange(u8),
    SecondOutOfRange(u8),
    InvalidDatePattern(String),
    InvalidDate { year: Option<u16>, month: u8, day: u8 },
}

/// Result based on [CrateError].
pub type CrateResult<T> = Result<T, CrateError>;

/// The ASCII character of a decimal digit.
pub open spec fn ascii_digit(d: u8) -> char {
    if d == 0 {
        '0'
    } else if d == 1 {
        '1'
    } else if d == 2 {
        '2'
    } else if d == 3 {
        '3'
    } else if d == 4 {
        '4'
    } else if d == 5 {
        '5'
    } else if d == 6 {
        '6'
    } else if d == 7 {
        '7'
    } else if d == 8 {
        '8'
    } else {
        '9'
    }
}

/// A natural number written in decimal with ASCII digits.
pub open spec fn decimal_text(n: nat) -> Seq<char> {
    decimal_digits(n).map_values(|d: u8| ascii_digit(d))
}

/// Appends a number written in decimal.
fn push_decimal(text: &mut String, n: u128)
    ensures
        final(text)@ == old(text)@ + decimal_text(n as nat),
{
    let digits = digit_vec(&digit_sequence_of(n));
    let ghost start = text@;
    let mut i: usize = 0;
    while i < digits.len()
        invariant
            i <= digits@.len(),
            digits@ == decimal_digits(n as nat),
            text@ == start + digits@.take(i as int).map_values(|d: u8| ascii_digit(d)),
        decreases digits@.len() - i,
    {
        let d = digits[i];
        let c = if d == 0 {
            '0'
        } else if d == 1 {
            '1'
        } else if d == 2 {
            '2'
        } else if d == 3 {
            '3'
        } else if d == 4 {
            '4'
        } else if d == 5 {
            '5'
        } else if d == 6 {
            '6'
        } else if d == 7 {
            '7'
        } else if d == 8 {
            '8'
        } else {
            '9'
        };
        push_char(text, c);
        i += 1;
        assert(text@ =~= start + digits@.take(i as int).map_values(|d: u8| ascii_digit(d)));
    }
    assert(digits@.take(i as int) =~= digits@);
}

/// The message describing an error.
pub open spec fn error_message(error: CrateError) -> Seq<char> {
    match error {
        CrateError::ZeroDenominator => "Zero passed as denominator"@,
        CrateError::DimesOutOfRange(v) => "Dimes out of range: "@ + decimal_text(v as nat),
        CrateError::CentsOutOfRange(v) => "Cents out of range: "@ + decimal_text(v as nat),
        CrateError::MonthOutOfRange(v) => "Month out of range: "@ + decimal_text(v as nat),
        CrateError::DayOutOfRange(v) => "Day out of range: "@ + decimal_text(v as nat),
        CrateError::WeekDayOutOfRange(v) => "Week day out of range: "@ + decimal_text(v as nat),
        CrateError::HourOutOfRange(v) => "Hour out of range: "@ + decimal_text(v as nat),
        CrateError::MinuteOutOfRange(v) => "Minute out of range: "@ + decimal_text(v as nat),
        CrateError::SecondOutOfRange(v) => "Second out of range: "@ + decimal_text(v as nat),
        CrateError::InvalidDatePattern(pattern) => "Invalid date pattern: "@ + pattern@,
        CrateError::InvalidDate { year, month, day } => match year {
            Some(y) => "Invalid date: "@ + decimal_text(y as nat) + seq!['-'] + decimal_text(
                month as nat,
            ) + seq!['-'] + decimal_text(day as nat),
            None => "Invalid date: "@ + decimal_text(month as nat) + seq!['-'] + decimal_text(
                day as nat,
            ),
        },
    }
}

impl CrateError {
    /// The message describing the error, such as `Dimes out of range: 200`.
    pub fn message(&self) -> (r: String)
        ensures
            r@ == error_message(*self),
    {
        match self {
            CrateError::ZeroDenominator => "Zero passed as denominator".to_owned(),
            CrateError::DimesOutOfRange(v) => {
                let mut text = "Dimes out of range: ".to_owned();
                push_decimal(&mut text, *v as u128);
                text
            },
            CrateError::CentsOutOfRange(v) => {
                let mut text = "Cents out of range: ".to_owned();
                push_decimal(&mut text, *v as u128);
                text
            },
            CrateError::MonthOutOfRange(v) => {
                let mut text = "Month out of range: ".to_owned();
                push_decimal(&mut text, *v as u128);
                text
            },
            CrateError::DayOutOfRange(v) => {
                let mut text = "Day out of range: ".to_owned();
                push_decimal(&mut text, *v as u128);
                text
            },
            CrateError::WeekDayOutOfRange(v) => {
                let mut text = "Week day out of range: ".to_owned();
                push_decimal(&mut text, *v as u128);
                text
            },
            CrateError::HourOutOfRange(v) => {
                let mut text = "Hour out of range: ".to_owned();
                push_decimal(&mut text, *v as u128);
                text
            },
            CrateError::MinuteOutOfRange(v) => {
                let mut text = "Minute out of range: ".to_owned();
                push_decimal(&mut text, *v as u128);
                text
            },
            CrateError::SecondOutOfRange(v) => {
                let mut text = "Second out of range: ".to_owned();
                push_decimal(&mut text, *v as u128);
                text
            },
            CrateError::InvalidDatePattern(pattern) => {
                let mut text = "Invalid date pattern: ".to_owned();
                text.append(pattern.as_str());
                text
            },
            CrateError::InvalidDate { year, month, day } => {
                let mut text = "Invalid date: ".to_owned();
                if let Some(y) = year {
                    push_decimal(&mut text, *y as u128);
                    push_char(&mut text, '-');
                }
                push_decimal(&mut text, *month as u128);
                push_char(&mut text, '-');
                push_decimal(&mut text, *day as u128);
                proof {
                    assert(text@ =~= error_message(*self));
                }
                text
            },
        }
    }
}

} // verus!
