use crate::chinese::{by_variant, literal, push_char, Chinese, ChineseFormat, ChineseView, Variant};
use crate::digit_sequences::{decimal_digits, digit_sequence_of, digits_chinese};
use crate::integers::integer_rendering;
use crate::measure::{measured, Measure};
use crate::vector::{collected, ChineseVec};
use crate::result::CrateError;
use vstd::prelude::*;

verus! {

/// Error for when the month of a date is out of range.
#[derive(Debug, Clone, Copy, PartialEq, Eq, Structural, PartialOrd, Ord, Hash)]
pub struct MonthOutOfRange(pub u8);

/// Error for when the day of a date is out of range.
#[derive(Debug, Clone, Copy, PartialEq, Eq, Structural, PartialOrd, Ord, Hash)]
pub struct DayOutOfRange(pub u8);

/// Error for when the week day of a date is out of range.
#[derive(Debug, Clone, Copy, PartialEq, Eq, Structural, PartialOrd, Ord, Hash)]
pub struct WeekDayOutOfRange(pub u8);

/// The day of the week.
#[derive(Debug, Clone, Copy, PartialEq, Eq, Structural, PartialOrd, Ord, Hash)]
pub enum WeekDay {
    Sunday,
    Monday,
    Tuesday,
    Wednesday,
    Thursday,
    Friday,
    Saturday,
}

/// The ordinal of a week day: 0 for Sunday up to 6 for Saturday.
pub open spec fn week_day_ordinal(day: WeekDay) -> u8 {
    match day {
        WeekDay::Sunday => 0,
        WeekDay::Monday => 1,
        WeekDay::Tuesday => 2,
        WeekDay::Wednesday => 3,
        WeekDay::Thursday => 4,
        WeekDay::Friday => 5,
        WeekDay::Saturday => 6,
    }
}

impl WeekDay {
    /// The ordinal: 0 for Sunday up to 6 for Saturday.
    pub fn ordinal(&self) -> (r: u8)
        ensures
            r == week_day_ordinal(*self),
    {
        match self {
            WeekDay::Sunday => 0,
            WeekDay::Monday => 1,
            WeekDay::Tuesday => 2,
            WeekDay::Wednesday => 3,
            WeekDay::Thursday => 4,
            WeekDay::Friday => 5,
            WeekDay::Saturday => 6,
        }
    }

    /// The week day with the given ordinal (0 is Sunday); fails from 7 on.
    pub fn try_from_ordinal(value: u8) -> (r: Result<WeekDay, WeekDayOutOfRange>)
        ensures
            value >= 7 ==> r == Err::<WeekDay, WeekDayOutOfRange>(WeekDayOutOfRange(value)),
            value < 7 ==> r is Ok && week_day_ordinal(r->Ok_0) == value,
    {
        match value {
            0 => Ok(WeekDay::Sunday),
            1 => Ok(WeekDay::Monday),
            2 => Ok(WeekDay::Tuesday),
            3 => Ok(WeekDay::Wednesday),
            4 => Ok(WeekDay::Thursday),
            5 => Ok(WeekDay::Friday),
            6 => Ok(WeekDay::Saturday),
            _ => Err(WeekDayOutOfRange(value)),
        }
    }
}

/// The words for a week: 星期, 周 or 礼拜 (禮拜).
#[derive(Debug, Clone, Copy, PartialEq, Eq, Structural, PartialOrd, Ord, Hash)]
pub enum WeekFormat {
    XingQi,
    Zhou,
    LiBai,
}

impl Default for WeekFormat {
    fn default() -> (r: Self)
        ensures
            r == WeekFormat::XingQi,
    {
        WeekFormat::XingQi
    }
}

/// The logograms of a week format.
pub open spec fn week_format_logograms(format: WeekFormat, variant: Variant) -> Seq<char> {
    match format {
        WeekFormat::XingQi => seq!['星', '期'],
        WeekFormat::Zhou => seq!['周'],
        WeekFormat::LiBai => by_variant(variant, seq!['礼', '拜'], seq!['禮', '拜']),
    }
}

impl ChineseFormat for WeekFormat {
    open spec fn spec_chinese(&self, variant: Variant) -> ChineseView {
        literal(week_format_logograms(*self, variant))
    }

    fn to_chinese(&self, variant: Variant) -> (r: Chinese) {
        proof {
            reveal_strlit("星期");
            reveal_strlit("周");
            reveal_strlit("礼拜");
            reveal_strlit("禮拜");
            assert("星期"@ =~= seq!['星', '期']);
            assert("周"@ =~= seq!['周']);
            assert("礼拜"@ =~= seq!['礼', '拜']);
            assert("禮拜"@ =~= seq!['禮', '拜']);
        }
        match self {
            WeekFormat::XingQi => "星期".to_chinese(variant),
            WeekFormat::Zhou => "周".to_chinese(variant),
            WeekFormat::LiBai => ("礼拜", "禮拜").to_chinese(variant),
        }
    }
}

/// A week day together with the word used for the week.
#[derive(Debug, Clone, Copy, PartialEq, Eq, Structural, PartialOrd, Ord, Hash)]
pub struct StyledWeekDay {
    pub week_format: WeekFormat,
    pub week_day: WeekDay,
}

/// What follows the week word: 天 for Sunday (日 after 周), else the day's numeral.
pub open spec fn ordinal_logograms(format: WeekFormat, day: WeekDay, variant: Variant) -> Seq<char> {
    if day == WeekDay::Sunday {
        if format == WeekFormat::Zhou {
            seq!['日']
        } else {
            seq!['天']
        }
    } else {
        integer_rendering(week_day_ordinal(day) as int, variant).logograms
    }
}

impl StyledWeekDay {
    /// The logograms that follow the week word.
    pub fn ordinal_logogram(&self, variant: Variant) -> (r: String)
        ensures
            r@ == ordinal_logograms(self.week_format, self.week_day, variant),
    {
        proof {
            reveal_strlit("日");
            reveal_strlit("天");
            assert("日"@ =~= seq!['日']);
            assert("天"@ =~= seq!['天']);
        }
        match self.week_day {
            WeekDay::Sunday => match self.week_format {
                WeekFormat::Zhou => "日".to_owned(),
                _ => "天".to_owned(),
            },
            _ => self.week_day.ordinal().to_chinese(variant).logograms,
        }
    }
}

/// The rendering of a styled week day: the week word, then the day.
pub open spec fn styled_week_day_chinese(format: WeekFormat, day: WeekDay, variant: Variant) -> ChineseView {
    collected(
        seq![
            format.spec_chinese(variant),
            literal(ordinal_logograms(format, day, variant)),
        ],
    )
}

impl ChineseFormat for StyledWeekDay {
    open spec fn spec_chinese(&self, variant: Variant) -> ChineseView {
        styled_week_day_chinese(self.week_format, self.week_day, variant)
    }

    fn to_chinese(&self, variant: Variant) -> (r: Chinese) {
        let items = vec![
            self.week_format.to_chinese(variant),
            self.ordinal_logogram(variant).to_chinese(variant),
        ];
        let parts = ChineseVec::new(items);
        assert(parts@ =~= seq![items@[0]@, items@[1]@]);
        parts.collect()
    }
}

/// The unit of a day: 号 (號) in the formal register, 日 in the informal one.
pub open spec fn day_unit(formal: bool) -> (&'static str, &'static str) {
    if formal {
        ("号", "號")
    } else {
        ("日", "日")
    }
}

/// The day of a month: from 1 to 31, with its register.
#[derive(Debug, Clone, Copy, PartialEq, Eq, Structural, PartialOrd, Ord, Hash)]
pub struct Day {
    value: u8,
    formal: bool,
}

impl View for Day {
    /// The ordinal and whether the register is formal.
    type V = (u8, bool);

    closed spec fn view(&self) -> (u8, bool) {
        (self.value, self.formal)
    }
}

impl Day {
    #[verifier::type_invariant]
    spec fn well_formed(&self) -> bool {
        1 <= self.value <= 31
    }

    fn validate(ordinal: u8) -> (r: Result<(), DayOutOfRange>)
        ensures
            r is Ok <==> 1 <= ordinal <= 31,
            r is Err ==> r == Err::<(), DayOutOfRange>(DayOutOfRange(ordinal)),
    {
        if ordinal < 1 || ordinal > 31 {
            return Err(DayOutOfRange(ordinal));
        }
        Ok(())
    }

    /// A day with the formal unit 号 (號); fails unless the ordinal is from 1 to 31.
    pub fn try_new_formal(ordinal: u8) -> (r: Result<Self, DayOutOfRange>)
        ensures
            !(1 <= ordinal <= 31) ==> r == Err::<Day, DayOutOfRange>(DayOutOfRange(ordinal)),
            1 <= ordinal <= 31 ==> r is Ok && r->Ok_0@ == (ordinal, true),
    {
        match Day::validate(ordinal) {
            Ok(()) => Ok(Day { value: ordinal, formal: true }),
            Err(e) => Err(e),
        }
    }

    /// A day with the informal unit 日; fails unless the ordinal is from 1 to 31.
    pub fn try_new_informal(ordinal: u8) -> (r: Result<Self, DayOutOfRange>)
        ensures
            !(1 <= ordinal <= 31) ==> r == Err::<Day, DayOutOfRange>(DayOutOfRange(ordinal)),
            1 <= ordinal <= 31 ==> r is Ok && r->Ok_0@ == (ordinal, false),
    {
        match Day::validate(ordinal) {
            Ok(()) => Ok(Day { value: ordinal, formal: false }),
            Err(e) => Err(e),
        }
    }
}

impl Measure for Day {
    type Value = u8;

    type Unit = (&'static str, &'static str);

    open spec fn spec_value(&self) -> u8 {
        self@.0
    }

    open spec fn spec_unit(&self) -> (&'static str, &'static str) {
        day_unit(self@.1)
    }

    fn value(&self) -> (r: &u8) {
        &self.value
    }

    fn unit(&self) -> (r: (&'static str, &'static str)) {
        if self.formal {
            ("号", "號")
        } else {
            ("日", "日")
        }
    }
}

/// The month of a date: from 1 to 12.
#[derive(Debug, Clone, Copy, PartialEq, Eq, Structural, PartialOrd, Ord, Hash)]
pub struct Month(u8);

impl View for Month {
    type V = u8;

    closed spec fn view(&self) -> u8 {
        self.0
    }
}

impl Month {
    #[verifier::type_invariant]
    spec fn well_formed(&self) -> bool {
        1 <= self.0 <= 12
    }

    /// Fails unless the value is from 1 to 12.
    pub fn try_new(value: u8) -> (r: Result<Month, MonthOutOfRange>)
        ensures
            !(1 <= value <= 12) ==> r == Err::<Month, MonthOutOfRange>(MonthOutOfRange(value)),
            1 <= value <= 12 ==> r is Ok && r->Ok_0@ == value,
    {
        if value < 1 || value > 12 {
            return Err(MonthOutOfRange(value));
        }
        Ok(Month(value))
    }
}

/// A month can be obtained from its number, from 1 to 12.
impl TryFrom<u8> for Month {
    type Error = MonthOutOfRange;

    fn try_from(value: u8) -> Result<Month, MonthOutOfRange> {
        Month::try_new(value)
    }
}

impl vstd::std_specs::convert::TryFromSpecImpl<u8> for Month {
    open spec fn obeys_try_from_spec() -> bool {
        true
    }

    closed spec fn try_from_spec(value: u8) -> Result<Month, MonthOutOfRange> {
        if 1 <= value <= 12 {
            Ok(Month(value))
        } else {
            Err(MonthOutOfRange(value))
        }
    }
}

impl Measure for Month {
    type Value = u8;

    type Unit = &'static str;

    open spec fn spec_value(&self) -> u8 {
        self@
    }

    open spec fn spec_unit(&self) -> &'static str {
        "月"
    }

    fn value(&self) -> (r: &u8) {
        &self.0
    }

    fn unit(&self) -> (r: &'static str) {
        "月"
    }
}

/// Whether a year is leap in the Gregorian calendar.
pub open spec fn leap_year(year: int) -> bool {
    year % 4 == 0 && (year % 100 != 0 || year % 400 == 0)
}

/// The rendering of a year: its digits one by one, then 年.
pub open spec fn year_chinese(year: u16) -> ChineseView {
    measured(digits_chinese(decimal_digits(year as nat)), literal("年"@))
}

/// A year, written digit by digit.
#[derive(Debug, Clone, Copy, PartialEq, Eq, Structural, PartialOrd, Ord, Hash)]
pub struct Year(pub u16);

impl View for Year {
    type V = u16;

    open spec fn view(&self) -> u16 {
        self.0
    }
}

impl Year {
    /// Whether the year is leap: divisible by 4, and not by 100 unless by 400.
    pub fn is_leap(&self) -> (r: bool)
        ensures
            r == leap_year(self@ as int),
    {
        let value = self.0;
        (value % 4 == 0) && (value % 100 != 0 || value % 400 == 0)
    }
}

impl ChineseFormat for Year {
    open spec fn spec_chinese(&self, variant: Variant) -> ChineseView {
        year_chinese(self@)
    }

    fn to_chinese(&self, variant: Variant) -> (r: Chinese) {
        let digits = digit_sequence_of(self.0 as u128).to_chinese(variant);
        let unit = "年".to_chinese(variant);
        let mut logograms = digits.logograms;
        logograms.append(unit.logograms.as_str());
        Chinese { logograms, omissible: digits.omissible }
    }
}

/// A week day can be obtained from its ordinal, 0 being Sunday.
impl TryFrom<u8> for WeekDay {
    type Error = WeekDayOutOfRange;

    fn try_from(value: u8) -> Result<WeekDay, WeekDayOutOfRange> {
        WeekDay::try_from_ordinal(value)
    }
}

impl vstd::std_specs::convert::TryFromSpecImpl<u8> for WeekDay {
    open spec fn obeys_try_from_spec() -> bool {
        true
    }

    open spec fn try_from_spec(value: u8) -> Result<WeekDay, WeekDayOutOfRange> {
        if value < 7 {
            Ok(
                match value {
                0 => WeekDay::Sunday,
                1 => WeekDay::Monday,
                2 => WeekDay::Tuesday,
                3 => WeekDay::Wednesday,
                4 => WeekDay::Thursday,
                5 => WeekDay::Friday,
                _ => WeekDay::Saturday,
            })
        } else {
            Err(WeekDayOutOfRange(value))
        }
    }
}

/// The number of a year.
impl<'a> From<&'a Year> for u16 {
    fn from(year: &'a Year) -> u16 {
        year.0
    }
}

impl<'a> vstd::std_specs::convert::FromSpecImpl<&'a Year> for u16 {
    open spec fn obeys_from_spec() -> bool {
        true
    }

    open spec fn from_spec(year: &'a Year) -> u16 {
        year.0
    }
}

impl From<u16> for Year {
    fn from(value: u16) -> Year {
        Year(value)
    }
}

impl vstd::std_specs::convert::FromSpecImpl<u16> for Year {
    open spec fn obeys_from_spec() -> bool {
        true
    }

    open spec fn from_spec(value: u16) -> Year {
        Year(value)
    }
}

impl From<MonthOutOfRange> for CrateError {
    fn from(error: MonthOutOfRange) -> CrateError {
        CrateError::MonthOutOfRange(error.0)
    }
}

impl vstd::std_specs::convert::FromSpecImpl<MonthOutOfRange> for CrateError {
    open spec fn obeys_from_spec() -> bool {
        true
    }

    open spec fn from_spec(error: MonthOutOfRange) -> CrateError {
        CrateError::MonthOutOfRange(error.0)
    }
}

impl From<DayOutOfRange> for CrateError {
    fn from(error: DayOutOfRange) -> CrateError {
        CrateError::DayOutOfRange(error.0)
    }
}

impl vstd::std_specs::convert::FromSpecImpl<DayOutOfRange> for CrateError {
    open spec fn obeys_from_spec() -> bool {
        true
    }

    open spec fn from_spec(error: DayOutOfRange) -> CrateError {
        CrateError::DayOutOfRange(error.0)
    }
}

impl From<WeekDayOutOfRange> for CrateError {
    fn from(error: WeekDayOutOfRange) -> CrateError {
        CrateError::WeekDayOutOfRange(error.0)
    }
}

impl vstd::std_specs::convert::FromSpecImpl<WeekDayOutOfRange> for CrateError {
    open spec fn obeys_from_spec() -> bool {
        true
    }

    open spec fn from_spec(error: WeekDayOutOfRange) -> CrateError {
        CrateError::WeekDayOutOfRange(error.0)
    }
}

} // verus!
