use super::date_parts::{
    day_unit, leap_year, styled_week_day_chinese, year_chinese, Day, Month, StyledWeekDay, WeekDay,
    WeekFormat, Year,
};
use crate::chinese::{push_char, rendering, Chinese, ChineseFormat, ChineseView, Variant};
use crate::integers::integer_rendering;
use crate::measure::measured;
use crate::placeholders::{placeheld, EmptyPlaceholder};
use crate::result::{CrateError, CrateResult};
use crate::vector::{collected, trimmed_end, ChineseVec};
use vstd::prelude::*;

verus! {

/// Error for a date that cannot exist, such as 2009-02-31.
#[derive(Debug, Clone, Copy, PartialEq, Eq, Structural, PartialOrd, Ord, Hash)]
pub struct InvalidDate {
    pub year: Option<u16>,
    pub month: u8,
    pub day: u8,
}

/// Error for a combination of date components that is not supported;
/// it holds the pattern's code.
#[derive(Debug, Clone, PartialEq, Eq, PartialOrd, Ord, Hash)]
pub struct InvalidDatePattern(pub String);

/// Which components a date pattern has.
#[derive(Debug, Clone, Copy, PartialEq, Eq, Structural)]
pub struct DatePatternFlags {
    pub year: bool,
    pub month: bool,
    pub day: bool,
    pub week_day: bool,
}

/// The code of a set of components: one letter for each of them, in the order y, m, d, w.
pub open spec fn pattern_code(flags: DatePatternFlags) -> Seq<char> {
    (if flags.year {
        seq!['y']
    } else {
        Seq::empty()
    }) + (if flags.month {
        seq!['m']
    } else {
        Seq::empty()
    }) + (if flags.day {
        seq!['d']
    } else {
        Seq::empty()
    }) + (if flags.week_day {
        seq!['w']
    } else {
        Seq::empty()
    })
}

impl DatePatternFlags {
    /// The code of these components, such as `ymdw`.
    pub fn code(&self) -> (r: String)
        ensures
            r@ == pattern_code(*self),
    {
        let mut code = String::new();
        if self.year {
            push_char(&mut code, 'y');
        }
        if self.month {
            push_char(&mut code, 'm');
        }
        if self.day {
            push_char(&mut code, 'd');
        }
        if self.week_day {
            push_char(&mut code, 'w');
        }
        assert(code@ =~= pattern_code(*self));
        code
    }
}

/// Any of the supported date patterns.
#[derive(Debug, Clone, Copy, PartialEq, Eq, Structural)]
pub enum DatePattern {
    Year,
    Month,
    Day,
    WeekDay,
    YearMonth,
    YearMonthDay,
    MonthDay,
    MonthDayWeekDay,
    DayWeekDay,
    YearMonthDayWeekDay,
}

/// The components of each pattern.
pub open spec fn pattern_flags(pattern: DatePattern) -> DatePatternFlags {
    match pattern {
        DatePattern::Year => DatePatternFlags { year: true, month: false, day: false, week_day: false },
        DatePattern::Month => DatePatternFlags { year: false, month: true, day: false, week_day: false },
        DatePattern::Day => DatePatternFlags { year: false, month: false, day: true, week_day: false },
        DatePattern::WeekDay => DatePatternFlags { year: false, month: false, day: false, week_day: true },
        DatePattern::YearMonth => DatePatternFlags { year: true, month: true, day: false, week_day: false },
        DatePattern::YearMonthDay => DatePatternFlags { year: true, month: true, day: true, week_day: false },
        DatePattern::MonthDay => DatePatternFlags { year: false, month: true, day: true, week_day: false },
        DatePattern::MonthDayWeekDay => DatePatternFlags { year: false, month: true, day: true, week_day: true },
        DatePattern::DayWeekDay => DatePatternFlags { year: false, month: false, day: true, week_day: true },
        DatePattern::YearMonthDayWeekDay => DatePatternFlags { year: true, month: true, day: true, week_day: true },
    }
}

/// Whether the components form one of the supported patterns.
pub open spec fn is_date_pattern(flags: DatePatternFlags) -> bool {
    exists|pattern: DatePattern| pattern_flags(pattern) == flags
}

impl DatePattern {
    /// The pattern with exactly the given components, if any.
    fn matching(flags: &DatePatternFlags) -> (r: Option<DatePattern>)
        ensures
            r matches Some(p) ==> pattern_flags(p) == *flags,
            r is None ==> !is_date_pattern(*flags),
    {
        let r = match (flags.year, flags.month, flags.day, flags.week_day) {
            (true, false, false, false) => Some(DatePattern::Year),
            (false, true, false, false) => Some(DatePattern::Month),
            (false, false, true, false) => Some(DatePattern::Day),
            (false, false, false, true) => Some(DatePattern::WeekDay),
            (true, true, false, false) => Some(DatePattern::YearMonth),
            (true, true, true, false) => Some(DatePattern::YearMonthDay),
            (false, true, true, false) => Some(DatePattern::MonthDay),
            (false, true, true, true) => Some(DatePattern::MonthDayWeekDay),
            (false, false, true, true) => Some(DatePattern::DayWeekDay),
            (true, true, true, true) => Some(DatePattern::YearMonthDayWeekDay),
            _ => None,
        };
        proof {
            if r is None {
                assert forall|p: DatePattern| pattern_flags(p) != *flags by {
                    match p {
                        DatePattern::Year => {},
                        DatePattern::Month => {},
                        DatePattern::Day => {},
                        DatePattern::WeekDay => {},
                        DatePattern::YearMonth => {},
                        DatePattern::YearMonthDay => {},
                        DatePattern::MonthDay => {},
                        DatePattern::MonthDayWeekDay => {},
                        DatePattern::DayWeekDay => {},
                        DatePattern::YearMonthDayWeekDay => {},
                    }
                }
            }
        }
        r
    }

    /// Succeeds exactly when the components form a supported pattern; otherwise
    /// reports the components' code.
    pub fn validate(flags: DatePatternFlags) -> (r: CrateResult<()>)
        ensures
            r is Ok <==> is_date_pattern(flags),
            !is_date_pattern(flags) ==> (r matches Err(CrateError::InvalidDatePattern(code))
                && code@ == pattern_code(flags)),
    {
        match DatePattern::matching(&flags) {
            Some(_) => Ok(()),
            None => Err(CrateError::InvalidDatePattern(flags.code())),
        }
    }

    /// Whether the pattern has a year.
    pub fn has_year(&self) -> (r: bool)
        ensures
            r == pattern_flags(*self).year,
    {
        match self {
            DatePattern::Year | DatePattern::YearMonth | DatePattern::YearMonthDay
            | DatePattern::YearMonthDayWeekDay => true,
            _ => false,
        }
    }

    /// Whether the pattern has a month.
    pub fn has_month(&self) -> (r: bool)
        ensures
            r == pattern_flags(*self).month,
    {
        match self {
            DatePattern::Month | DatePattern::YearMonth | DatePattern::YearMonthDay
            | DatePattern::MonthDay | DatePattern::MonthDayWeekDay
            | DatePattern::YearMonthDayWeekDay => true,
            _ => false,
        }
    }

    /// Whether the pattern has a day.
    pub fn has_day(&self) -> (r: bool)
        ensures
            r == pattern_flags(*self).day,
    {
        match self {
            DatePattern::Day | DatePattern::YearMonthDay | DatePattern::MonthDay
            | DatePattern::MonthDayWeekDay | DatePattern::DayWeekDay
            | DatePattern::YearMonthDayWeekDay => true,
            _ => false,
        }
    }

    /// Whether the pattern has a week day.
    pub fn has_week_day(&self) -> (r: bool)
        ensures
            r == pattern_flags(*self).week_day,
    {
        match self {
            DatePattern::WeekDay | DatePattern::MonthDayWeekDay | DatePattern::DayWeekDay
            | DatePattern::YearMonthDayWeekDay => true,
            _ => false,
        }
    }

    /// The pattern's code, such as `ym`.
    pub fn code(&self) -> (r: String)
        ensures
            r@ == pattern_code(pattern_flags(*self)),
    {
        DatePatternFlags {
            year: self.has_year(),
            month: self.has_month(),
            day: self.has_day(),
            week_day: self.has_week_day(),
        }.code()
    }
}

/// The settings of a [DateBuilder].
pub struct DateSettings {
    pub year: Option<u16>,
    pub month: Option<u8>,
    pub day: Option<u8>,
    pub week_day: Option<WeekDay>,
    pub formal: bool,
    pub week_format: WeekFormat,
}

/// The components that the settings ask for.
pub open spec fn settings_flags(s: DateSettings) -> DatePatternFlags {
    DatePatternFlags {
        year: s.year is Some,
        month: s.month is Some,
        day: s.day is Some,
        week_day: s.week_day is Some,
    }
}

/// Whether a day can be in a month: at most 30 days in April, June, September and
/// November, 29 in February of a leap year (or of an unknown year), 28 in February
/// otherwise; every day from 1 to 31 can be in any other month.
pub open spec fn day_fits_month(month: u8, day: u8, leap: bool) -> bool {
    if month == 4 || month == 6 || month == 9 || month == 11 {
        day <= 30
    } else if month == 2 {
        day <= (if leap {
            29int
        } else {
            28int
        })
    } else {
        true
    }
}

/// Whether the month and the day of the settings, if both are set, can go together.
pub open spec fn settings_consistent(s: DateSettings) -> bool {
    let leap = match s.year {
        Some(y) => leap_year(y as int),
        None => true,
    };
    match (s.month, s.day) {
        (Some(m), Some(d)) => day_fits_month(m, d, leap),
        _ => true,
    }
}

/// The plain components of a [Date]: the day with its register, the week day with its style.
pub struct DateParts {
    pub year: Option<u16>,
    pub month: Option<u8>,
    pub day: Option<(u8, bool)>,
    pub week_day: Option<StyledWeekDay>,
}

/// The date that valid settings describe.
pub open spec fn settings_date(s: DateSettings) -> DateParts {
    DateParts {
        year: s.year,
        month: s.month,
        day: match s.day {
            Some(d) => Some((d, s.formal)),
            None => None,
        },
        week_day: match s.week_day {
            Some(w) => Some(StyledWeekDay { week_format: s.week_format, week_day: w }),
            None => None,
        },
    }
}

/// Builds a [Date] from its components, set one by one.
pub struct DateBuilder {
    year: Option<u16>,
    month: Option<u8>,
    day: Option<u8>,
    week_day: Option<WeekDay>,
    formal: bool,
    week_format: WeekFormat,
}

impl View for DateBuilder {
    type V = DateSettings;

    closed spec fn view(&self) -> DateSettings {
        DateSettings {
            year: self.year,
            month: self.month,
            day: self.day,
            week_day: self.week_day,
            formal: self.formal,
            week_format: self.week_format,
        }
    }
}

impl DateBuilder {
    /// The default builder: no component, formal register, 星期 for weeks.
    pub fn new() -> (r: Self)
        ensures
            r@ == (DateSettings {
                year: None,
                month: None,
                day: None,
                week_day: None,
                formal: true,
                week_format: WeekFormat::XingQi,
            }),
    {
        DateBuilder {
            year: None,
            month: None,
            day: None,
            week_day: None,
            formal: true,
            week_format: WeekFormat::XingQi,
        }
    }

    /// Sets the year.
    pub fn with_year(self, year: u16) -> (r: Self)
        ensures
            r@ == (DateSettings { year: Some(year), ..self@ }),
    {
        DateBuilder { year: Some(year), ..self }
    }

    /// Sets the month: building fails unless it is from 1 to 12.
    pub fn with_month(self, month: u8) -> (r: Self)
        ensures
            r@ == (DateSettings { month: Some(month), ..self@ }),
    {
        DateBuilder { month: Some(month), ..self }
    }

    /// Sets the day: building fails unless it is from 1 to 31.
    pub fn with_day(self, day: u8) -> (r: Self)
        ensures
            r@ == (DateSettings { day: Some(day), ..self@ }),
    {
        DateBuilder { day: Some(day), ..self }
    }

    /// Sets the week day.
    pub fn with_week_day(self, week_day: WeekDay) -> (r: Self)
        ensures
            r@ == (DateSettings { week_day: Some(week_day), ..self@ }),
    {
        DateBuilder { week_day: Some(week_day), ..self }
    }

    /// Sets whether the register is formal.
    pub fn with_formal(self, formal: bool) -> (r: Self)
        ensures
            r@ == (DateSettings { formal, ..self@ }),
    {
        DateBuilder { formal, ..self }
    }

    /// Sets the word used for weeks.
    pub fn with_week_format(self, week_format: WeekFormat) -> (r: Self)
        ensures
            r@ == (DateSettings { week_format, ..self@ }),
    {
        DateBuilder { week_format, ..self }
    }

    /// Checks that the day can be in the month, assuming a leap year when there is no year.
    fn validate_consistency(&self, year: Option<&Year>) -> (r: Result<(), InvalidDate>)
        requires
            year matches Some(y) ==> self.year == Some(y@),
            year is None ==> self.year is None,
        ensures
            r is Ok <==> settings_consistent(self@),
            r is Err ==> r == Err::<(), InvalidDate>(
                InvalidDate { year: self.year, month: self.month->Some_0, day: self.day->Some_0 },
            ),
    {
        let is_leap_year = match year {
            Some(y) => y.is_leap(),
            None => true,
        };
        if let Some(month_ordinal) = self.month {
            if let Some(day_ordinal) = self.day {
                let day_is_valid = if month_ordinal == 4 || month_ordinal == 6 || month_ordinal == 9
                    || month_ordinal == 11 {
                    day_ordinal <= 30
                } else if month_ordinal == 2 {
                    let max_day: u8 = if is_leap_year {
                        29
                    } else {
                        28
                    };
                    day_ordinal <= max_day
                } else {
                    true
                };
                if !day_is_valid {
                    return Err(InvalidDate { year: self.year, month: month_ordinal, day: day_ordinal });
                }
            }
        }
        Ok(())
    }

    /// Builds the date, reporting the first failed check: the pattern of the
    /// components, the month's range, the day's range, then whether the day can be
    /// in the month (in a leap year when there is no year). Week days are not checked
    /// against the date.
    pub fn build(&self) -> (r: CrateResult<Date>)
        ensures
            !is_date_pattern(settings_flags(self@)) ==> (r matches Err(
                CrateError::InvalidDatePattern(code),
            ) && code@ == pattern_code(settings_flags(self@))),
            is_date_pattern(settings_flags(self@)) && (self@.month matches Some(m) && !(1 <= m
                <= 12)) ==> r == Err::<Date, CrateError>(
                CrateError::MonthOutOfRange(self@.month->Some_0),
            ),
            is_date_pattern(settings_flags(self@)) && !(self@.month matches Some(m) && !(1 <= m
                <= 12)) && (self@.day matches Some(d) && !(1 <= d <= 31)) ==> r == Err::<
                Date,
                CrateError,
            >(CrateError::DayOutOfRange(self@.day->Some_0)),
            is_date_pattern(settings_flags(self@)) && !(self@.month matches Some(m) && !(1 <= m
                <= 12)) && !(self@.day matches Some(d) && !(1 <= d <= 31)) && !settings_consistent(
                self@,
            ) ==> r == Err::<Date, CrateError>(
                CrateError::InvalidDate {
                    year: self@.year,
                    month: self@.month->Some_0,
                    day: self@.day->Some_0,
                },
            ),
            is_date_pattern(settings_flags(self@)) && !(self@.month matches Some(m) && !(1 <= m
                <= 12)) && !(self@.day matches Some(d) && !(1 <= d <= 31)) && settings_consistent(
                self@,
            ) ==> r is Ok && r->Ok_0@ == settings_date(self@),
    {
        let flags = DatePatternFlags {
            year: self.year.is_some(),
            month: self.month.is_some(),
            day: self.day.is_some(),
            week_day: self.week_day.is_some(),
        };
        match DatePattern::validate(flags) {
            Ok(()) => {},
            Err(e) => {
                return Err(e);
            },
        }
        let year: Option<Year> = match self.year {
            Some(y) => Some(Year(y)),
            None => None,
        };
        let month: Option<Month> = match self.month {
            Some(m) => match Month::try_new(m) {
                Ok(month) => Some(month),
                Err(e) => {
                    return Err(CrateError::MonthOutOfRange(e.0));
                },
            },
            None => None,
        };
        let day: Option<Day> = match self.day {
            Some(d) => {
                let attempt = if self.formal {
                    Day::try_new_formal(d)
                } else {
                    Day::try_new_informal(d)
                };
                match attempt {
                    Ok(day) => Some(day),
                    Err(e) => {
                        return Err(CrateError::DayOutOfRange(e.0));
                    },
                }
            },
            None => None,
        };
        match self.validate_consistency(year.as_ref()) {
            Ok(()) => {},
            Err(e) => {
                return Err(CrateError::InvalidDate { year: e.year, month: e.month, day: e.day });
            },
        }
        let week_day = match self.week_day {
            Some(w) => Some(StyledWeekDay { week_format: self.week_format, week_day: w }),
            None => None,
        };
        Ok(Date { year, month, day, week_day })
    }
}

impl Default for DateBuilder {
    fn default() -> (r: Self)
        ensures
            r@ == (DateSettings {
                year: None,
                month: None,
                day: None,
                week_day: None,
                formal: true,
                week_format: WeekFormat::XingQi,
            }),
    {
        DateBuilder::new()
    }
}

/// A date of the Gregorian calendar, built (and checked) by [DateBuilder].
#[derive(Debug, Clone, Copy, PartialEq, Eq, Structural, PartialOrd, Ord, Hash)]
pub struct Date {
    year: Option<Year>,
    month: Option<Month>,
    day: Option<Day>,
    week_day: Option<StyledWeekDay>,
}

impl View for Date {
    type V = DateParts;

    closed spec fn view(&self) -> DateParts {
        DateParts {
            year: match self.year {
                Some(y) => Some(y@),
                None => None,
            },
            month: match self.month {
                Some(m) => Some(m@),
                None => None,
            },
            day: match self.day {
                Some(d) => Some(d@),
                None => None,
            },
            week_day: self.week_day,
        }
    }
}

/// The rendering of a date: its components in order, each leaving no text when
/// absent, and without the trailing components that are omissible.
pub open spec fn date_chinese(p: DateParts, variant: Variant) -> ChineseView {
    let nothing = rendering(Seq::empty(), true);
    let year = match p.year {
        Some(y) => year_chinese(y),
        None => nothing,
    };
    let month = match p.month {
        Some(m) => measured(integer_rendering(m as int, variant), crate::chinese::literal("月"@)),
        None => nothing,
    };
    let day = match p.day {
        Some(d) => measured(integer_rendering(d.0 as int, variant), day_unit(d.1).spec_chinese(variant)),
        None => nothing,
    };
    let week_day = match p.week_day {
        Some(w) => styled_week_day_chinese(w.week_format, w.week_day, variant),
        None => nothing,
    };
    collected(
        trimmed_end(
            seq![
                placeheld(year, Seq::empty()),
                placeheld(month, Seq::empty()),
                placeheld(day, Seq::empty()),
                placeheld(week_day, Seq::empty()),
            ],
        ),
    )
}

impl ChineseFormat for Date {
    open spec fn spec_chinese(&self, variant: Variant) -> ChineseView {
        date_chinese(self@, variant)
    }

    fn to_chinese(&self, variant: Variant) -> (r: Chinese) {
        let items = vec![
            EmptyPlaceholder::new(&self.year).to_chinese(variant),
            EmptyPlaceholder::new(&self.month).to_chinese(variant),
            EmptyPlaceholder::new(&self.day).to_chinese(variant),
            EmptyPlaceholder::new(&self.week_day).to_chinese(variant),
        ];
        let parts = ChineseVec::new(items);
        assert(parts@ =~= seq![items@[0]@, items@[1]@, items@[2]@, items@[3]@]);
        parts.trim_end().collect()
    }
}

impl From<InvalidDate> for CrateError {
    fn from(error: InvalidDate) -> CrateError {
        CrateError::InvalidDate { year: error.year, month: error.month, day: error.day }
    }
}

impl vstd::std_specs::convert::FromSpecImpl<InvalidDate> for CrateError {
    open spec fn obeys_from_spec() -> bool {
        true
    }

    open spec fn from_spec(error: InvalidDate) -> CrateError {
        CrateError::InvalidDate { year: error.year, month: error.month, day: error.day }
    }
}

impl From<InvalidDatePattern> for CrateError {
    fn from(error: InvalidDatePattern) -> CrateError {
        CrateError::InvalidDatePattern(error.0)
    }
}

impl vstd::std_specs::convert::FromSpecImpl<InvalidDatePattern> for CrateError {
    open spec fn obeys_from_spec() -> bool {
        true
    }

    open spec fn from_spec(error: InvalidDatePattern) -> CrateError {
        CrateError::InvalidDatePattern(error.0)
    }
}

} // verus!
