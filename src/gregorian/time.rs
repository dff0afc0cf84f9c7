use crate::chinese::{by_variant, literal, rendering, Chinese, ChineseFormat, ChineseView, Variant};
use crate::count::Count;
use crate::integers::integer_rendering;
use crate::measure::{measured, Measure};
use crate::placeholders::{placeheld, EmptyPlaceholder};
use crate::result::{CrateError, CrateResult};
use crate::vector::{collected, ChineseVec};
use vstd::prelude::*;

verus! {

/// Error for when the hour of a time expression is out of range.
#[derive(Debug, Clone, Copy, PartialEq, Eq, Structural, PartialOrd, Ord, Hash)]
pub struct HourOutOfRange(pub u8);

/// Error for when the minute of a time expression is out of range.
#[derive(Debug, Clone, Copy, PartialEq, Eq, Structural, PartialOrd, Ord, Hash)]
pub struct MinuteOutOfRange(pub u8);

/// Error for when the second of a time expression is out of range.
#[derive(Debug, Clone, Copy, PartialEq, Eq, Structural, PartialOrd, Ord, Hash)]
pub struct SecondOutOfRange(pub u8);

/// The hour unit: 点 (Simplified), 點 (Traditional).
pub open spec fn hour_unit() -> (&'static str, &'static str) {
    ("点", "點")
}

/// The hour, independently of the clock format.
pub trait Hour {
    spec fn spec_clock_value(&self) -> Count;

    /// The number representing the hour on a clock.
    fn clock_value(&self) -> (r: &Count)
        ensures
            *r == self.spec_clock_value(),
    ;
}

/// The hour of a 24-hour digital clock: from 0 to 23.
#[derive(Debug, Clone, Copy, PartialEq, Eq, Structural, PartialOrd, Ord, Hash)]
pub struct Hour24(Count);

impl View for Hour24 {
    type V = u128;

    closed spec fn view(&self) -> u128 {
        self.0.0
    }
}

impl Hour24 {
    #[verifier::type_invariant]
    spec fn well_formed(&self) -> bool {
        self.0.0 < 24
    }

    /// Fails exactly when the value is 24 or more.
    pub fn try_new(value: u8) -> (r: Result<Hour24, HourOutOfRange>)
        ensures
            value >= 24 ==> r == Err::<Hour24, HourOutOfRange>(HourOutOfRange(value)),
            value < 24 ==> r is Ok && r->Ok_0@ == value,
    {
        if value >= 24 {
            return Err(HourOutOfRange(value));
        }
        Ok(Hour24(Count(value as u128)))
    }

    /// The value, from 0 to 23.
    pub fn value(&self) -> (r: u8)
        ensures
            r == self@,
            r < 24,
    {
        proof {
            use_type_invariant(self);
        }
        self.0.0 as u8
    }
}

impl Hour for Hour24 {
    open spec fn spec_clock_value(&self) -> Count {
        Count(self@)
    }

    fn clock_value(&self) -> (r: &Count) {
        &self.0
    }
}

impl Measure for Hour24 {
    type Value = Count;

    type Unit = (&'static str, &'static str);

    open spec fn spec_value(&self) -> Count {
        Count(self@)
    }

    open spec fn spec_unit(&self) -> (&'static str, &'static str) {
        hour_unit()
    }

    fn value(&self) -> (r: &Count) {
        &self.0
    }

    fn unit(&self) -> (r: (&'static str, &'static str)) {
        ("点", "點")
    }
}

/// The hour of a traditional analog clock: from 1 to 12.
#[derive(Debug, Clone, Copy, PartialEq, Eq, Structural, PartialOrd, Ord, Hash)]
pub struct Hour12(Count);

impl View for Hour12 {
    type V = u128;

    closed spec fn view(&self) -> u128 {
        self.0.0
    }
}

/// The analog-clock hour that shows a digital-clock hour.
pub open spec fn hour12_of(hour24: u128) -> u128 {
    if hour24 == 0 {
        12
    } else if hour24 <= 12 {
        hour24
    } else {
        (hour24 - 12) as u128
    }
}

impl Hour12 {
    #[verifier::type_invariant]
    spec fn well_formed(&self) -> bool {
        1 <= self.0.0 <= 12
    }

    /// Fails exactly when the value is not between 1 and 12.
    pub fn try_new(value: u8) -> (r: CrateResult<Hour12>)
        ensures
            !(1 <= value <= 12) ==> r == Err::<Hour12, CrateError>(
                CrateError::HourOutOfRange(value),
            ),
            1 <= value <= 12 ==> r is Ok && r->Ok_0@ == value,
    {
        if value < 1 || value > 12 {
            return Err(CrateError::HourOutOfRange(value));
        }
        Ok(Hour12(Count(value as u128)))
    }

    /// The hour shown by an analog clock at the given digital-clock hour.
    pub fn from_hour24(hour24: Hour24) -> (r: Hour12)
        ensures
            r@ == hour12_of(hour24@),
    {
        proof {
            use_type_invariant(hour24);
        }
        let value = hour24.0.0;
        Hour12(
            Count(
                if value == 0 {
                    12
                } else if value <= 12 {
                    value
                } else {
                    value - 12
                },
            ),
        )
    }

    /// The value, from 1 to 12.
    pub fn value(&self) -> (r: u8)
        ensures
            r == self@,
            1 <= r <= 12,
    {
        proof {
            use_type_invariant(self);
        }
        self.0.0 as u8
    }

    /// The next hour on the analog clock: 12 wraps to 1.
    pub fn next(&self) -> (r: Self)
        ensures
            r@ == (if self@ == 12 {
                1
            } else {
                self@ + 1
            }),
    {
        proof {
            use_type_invariant(self);
        }
        let value = self.0.0;
        Hour12(
            Count(
                if value == 12 {
                    1
                } else {
                    value + 1
                },
            ),
        )
    }
}

impl Hour for Hour12 {
    open spec fn spec_clock_value(&self) -> Count {
        Count(self@)
    }

    fn clock_value(&self) -> (r: &Count) {
        &self.0
    }
}

impl Measure for Hour12 {
    type Value = Count;

    type Unit = (&'static str, &'static str);

    open spec fn spec_value(&self) -> Count {
        Count(self@)
    }

    open spec fn spec_unit(&self) -> (&'static str, &'static str) {
        hour_unit()
    }

    fn value(&self) -> (r: &Count) {
        &self.0
    }

    fn unit(&self) -> (r: (&'static str, &'static str)) {
        ("点", "點")
    }
}

/// The minute of a time expression: from 0 to 59.
#[derive(Debug, Clone, Copy, PartialEq, Eq, Structural, PartialOrd, Ord, Hash)]
pub struct Minute(u8);

impl View for Minute {
    type V = u8;

    closed spec fn view(&self) -> u8 {
        self.0
    }
}

impl Minute {
    #[verifier::type_invariant]
    spec fn well_formed(&self) -> bool {
        self.0 < 60
    }

    /// Fails exactly when the value is 60 or more.
    pub fn try_new(value: u8) -> (r: Result<Minute, MinuteOutOfRange>)
        ensures
            value >= 60 ==> r == Err::<Minute, MinuteOutOfRange>(MinuteOutOfRange(value)),
            value < 60 ==> r is Ok && r->Ok_0@ == value,
    {
        if value >= 60 {
            return Err(MinuteOutOfRange(value));
        }
        Ok(Minute(value))
    }

    /// The value, from 0 to 59.
    pub fn value(&self) -> (r: u8)
        ensures
            r == self@,
            r < 60,
    {
        proof {
            use_type_invariant(self);
        }
        self.0
    }

    /// The minutes left to complete the hour; not defined for zero minutes,
    /// whose complement (60) is out of range.
    pub fn complement(&self) -> (r: Result<Self, MinuteOutOfRange>)
        ensures
            self@ == 0 ==> r == Err::<Minute, MinuteOutOfRange>(MinuteOutOfRange(60)),
            self@ != 0 ==> r is Ok && r->Ok_0@ == 60 - self@,
    {
        proof {
            use_type_invariant(self);
        }
        Minute::try_new(60 - self.0)
    }
}

impl Measure for Minute {
    type Value = u8;

    type Unit = &'static str;

    open spec fn spec_value(&self) -> u8 {
        self@
    }

    open spec fn spec_unit(&self) -> &'static str {
        "分"
    }

    fn value(&self) -> (r: &u8) {
        &self.0
    }

    fn unit(&self) -> (r: &'static str) {
        "分"
    }
}

/// The second of a time expression: from 0 to 59.
#[derive(Debug, Clone, Copy, PartialEq, Eq, Structural, PartialOrd, Ord, Hash)]
pub struct Second(u8);

impl View for Second {
    type V = u8;

    closed spec fn view(&self) -> u8 {
        self.0
    }
}

impl Second {
    #[verifier::type_invariant]
    spec fn well_formed(&self) -> bool {
        self.0 < 60
    }

    /// Fails exactly when the value is 60 or more.
    pub fn try_new(value: u8) -> (r: Result<Second, SecondOutOfRange>)
        ensures
            value >= 60 ==> r == Err::<Second, SecondOutOfRange>(SecondOutOfRange(value)),
            value < 60 ==> r is Ok && r->Ok_0@ == value,
    {
        if value >= 60 {
            return Err(SecondOutOfRange(value));
        }
        Ok(Second(value))
    }

    /// The value, from 0 to 59.
    pub fn value(&self) -> (r: u8)
        ensures
            r == self@,
            r < 60,
    {
        proof {
            use_type_invariant(self);
        }
        self.0
    }
}

impl Measure for Second {
    type Value = u8;

    type Unit = &'static str;

    open spec fn spec_value(&self) -> u8 {
        self@
    }

    open spec fn spec_unit(&self) -> &'static str {
        "秒"
    }

    fn value(&self) -> (r: &u8) {
        &self.0
    }

    fn unit(&self) -> (r: &'static str) {
        "秒"
    }
}


/// The rendering of a clock hour: its value as a count, then 点 (點).
pub open spec fn clock_chinese(value: u128, variant: Variant) -> ChineseView {
    measured(Count(value).spec_chinese(variant), hour_unit().spec_chinese(variant))
}

/// The rendering of a number of minutes: its numeral, then 分.
pub open spec fn minute_chinese(value: u8, variant: Variant) -> ChineseView {
    measured(integer_rendering(value as int, variant), literal("分"@))
}

/// Each of the eight traditional parts of the day, three hours each from 早上 at 5.
#[derive(Debug, Clone, Copy, PartialEq, Eq, Structural, PartialOrd, Ord, Hash)]
pub enum DayPart {
    EarlyMorning,
    Morning,
    Midday,
    Afternoon,
    EarlyEvening,
    Evening,
    Midnight,
    LateNight,
}

/// The part of the day that a digital-clock hour belongs to.
pub open spec fn day_part_of(hour: u128) -> DayPart {
    if 5 <= hour <= 7 {
        DayPart::EarlyMorning
    } else if 8 <= hour <= 10 {
        DayPart::Morning
    } else if 11 <= hour <= 13 {
        DayPart::Midday
    } else if 14 <= hour <= 16 {
        DayPart::Afternoon
    } else if 17 <= hour <= 19 {
        DayPart::EarlyEvening
    } else if 20 <= hour <= 22 {
        DayPart::Evening
    } else if hour == 23 || hour <= 1 {
        DayPart::Midnight
    } else {
        DayPart::LateNight
    }
}

/// The logograms of each part of the day, the same in both scripts.
pub open spec fn day_part_logograms(part: DayPart) -> Seq<char> {
    match part {
        DayPart::EarlyMorning => seq!['早', '上'],
        DayPart::Morning => seq!['上', '午'],
        DayPart::Midday => seq!['中', '午'],
        DayPart::Afternoon => seq!['下', '午'],
        DayPart::EarlyEvening => seq!['傍', '晚'],
        DayPart::Evening => seq!['晚', '上'],
        DayPart::Midnight => seq!['午', '夜'],
        DayPart::LateNight => seq!['深', '夜'],
    }
}

impl DayPart {
    /// The part of the day of a digital-clock hour.
    pub fn from_hour24(hour: Hour24) -> (r: DayPart)
        ensures
            r == day_part_of(hour@),
    {
        let h = hour.value();
        if 5 <= h && h <= 7 {
            DayPart::EarlyMorning
        } else if 8 <= h && h <= 10 {
            DayPart::Morning
        } else if 11 <= h && h <= 13 {
            DayPart::Midday
        } else if 14 <= h && h <= 16 {
            DayPart::Afternoon
        } else if 17 <= h && h <= 19 {
            DayPart::EarlyEvening
        } else if 20 <= h && h <= 22 {
            DayPart::Evening
        } else if h == 23 || h <= 1 {
            DayPart::Midnight
        } else {
            DayPart::LateNight
        }
    }
}

/// A part of the day renders as its two logograms, never omissible.
impl ChineseFormat for DayPart {
    open spec fn spec_chinese(&self, variant: Variant) -> ChineseView {
        rendering(day_part_logograms(*self), false)
    }

    fn to_chinese(&self, variant: Variant) -> (r: Chinese) {
        proof {
            reveal_strlit("早上");
            reveal_strlit("上午");
            reveal_strlit("中午");
            reveal_strlit("下午");
            reveal_strlit("傍晚");
            reveal_strlit("晚上");
            reveal_strlit("午夜");
            reveal_strlit("深夜");
        }
        let text: &str = match self {
            DayPart::EarlyMorning => "早上",
            DayPart::Morning => "上午",
            DayPart::Midday => "中午",
            DayPart::Afternoon => "下午",
            DayPart::EarlyEvening => "傍晚",
            DayPart::Evening => "晚上",
            DayPart::Midnight => "午夜",
            DayPart::LateNight => "深夜",
        };
        assert(text@ =~= day_part_logograms(*self));
        Chinese { logograms: text.to_owned(), omissible: false }
    }
}

/// Time shown linearly, from the part of the day down to the second.
#[derive(Debug, Clone, Copy, PartialEq, Eq, Structural, PartialOrd, Ord, Hash)]
pub struct LinearTime {
    /// Whether the part of the day is included; the hour is then shown on an analog clock.
    pub day_part: bool,
    /// The hour, as on a digital clock.
    pub hour: Hour24,
    /// The minute.
    pub minute: Minute,
    /// Optionally, the second.
    pub second: Option<Second>,
}

/// The rendering of a linear time: the part of the day (if asked for), the hour (on
/// an analog clock if the part of the day is shown), then the minute and the second;
/// an omissible minute or second leaves no text.
pub open spec fn linear_time_chinese(
    day_part: bool,
    hour: u128,
    minute: u8,
    second: Option<u8>,
    variant: Variant,
) -> ChineseView {
    let part = if day_part {
        day_part_of(hour).spec_chinese(variant)
    } else {
        rendering(Seq::empty(), true)
    };
    let clock = if day_part {
        clock_chinese(hour12_of(hour), variant)
    } else {
        clock_chinese(hour, variant)
    };
    let seconds = match second {
        Some(s) => measured(integer_rendering(s as int, variant), literal("秒"@)),
        None => rendering(Seq::empty(), true),
    };
    collected(
        seq![
            placeheld(part, Seq::empty()),
            clock,
            placeheld(minute_chinese(minute, variant), Seq::empty()),
            placeheld(seconds, Seq::empty()),
        ],
    )
}

impl ChineseFormat for LinearTime {
    open spec fn spec_chinese(&self, variant: Variant) -> ChineseView {
        linear_time_chinese(
            self.day_part,
            self.hour@,
            self.minute@,
            match self.second {
                Some(s) => Some(s@),
                None => None,
            },
            variant,
        )
    }

    fn to_chinese(&self, variant: Variant) -> (r: Chinese) {
        let (part, clock) = if self.day_part {
            let part = Some(DayPart::from_hour24(self.hour));
            (part, Hour12::from_hour24(self.hour).to_chinese(variant))
        } else {
            (None, self.hour.to_chinese(variant))
        };
        let items = vec![
            EmptyPlaceholder::new(&part).to_chinese(variant),
            clock,
            EmptyPlaceholder::new(&self.minute).to_chinese(variant),
            EmptyPlaceholder::new(&self.second).to_chinese(variant),
        ];
        let parts = ChineseVec::new(items);
        assert(parts@ =~= seq![items@[0]@, items@[1]@, items@[2]@, items@[3]@]);
        parts.collect()
    }
}

/// Time expressed as minutes past or to an hour of the analog clock.
#[derive(Debug, Clone, Copy, PartialEq, Eq, Structural, PartialOrd, Ord, Hash)]
pub struct DeltaTime {
    /// The hour shown by the hour hand.
    pub hour: Hour12,
    /// The minute shown by the minute hand.
    pub minute: Minute,
}

/// The rendering of a delta time: 钟 (鐘) on the hour, 过 (過) and the minutes up to
/// half past, 刻 at a quarter, 半 at half past, 三刻 at three quarters, and otherwise
/// the next hour, 差 and the minutes left.
pub open spec fn delta_time_chinese(hour: u128, minute: u8, variant: Variant) -> ChineseView {
    let clock = clock_chinese(hour, variant);
    let ke = literal(seq!['刻']);
    if minute == 0 {
        collected(seq![clock, literal(by_variant(variant, seq!['钟'], seq!['鐘']))])
    } else if (1 <= minute <= 14) || (16 <= minute <= 29) {
        collected(
            seq![
                clock,
                literal(by_variant(variant, seq!['过'], seq!['過'])),
                minute_chinese(minute, variant),
            ],
        )
    } else if minute == 15 {
        collected(seq![clock, ke])
    } else if minute == 30 {
        collected(seq![clock, literal(seq!['半'])])
    } else if minute == 45 {
        collected(seq![clock, integer_rendering(3, variant), ke])
    } else {
        let next = if hour == 12 {
            1
        } else {
            hour + 1
        };
        collected(
            seq![
                clock_chinese(next as u128, variant),
                literal(seq!['差']),
                minute_chinese((60 - minute) as u8, variant),
            ],
        )
    }
}

impl ChineseFormat for DeltaTime {
    open spec fn spec_chinese(&self, variant: Variant) -> ChineseView {
        delta_time_chinese(self.hour@, self.minute@, variant)
    }

    fn to_chinese(&self, variant: Variant) -> (r: Chinese) {
        proof {
            reveal_strlit("钟");
            reveal_strlit("鐘");
            reveal_strlit("过");
            reveal_strlit("過");
            reveal_strlit("刻");
            reveal_strlit("半");
            reveal_strlit("差");
            assert("钟"@ =~= seq!['钟']);
            assert("鐘"@ =~= seq!['鐘']);
            assert("过"@ =~= seq!['过']);
            assert("過"@ =~= seq!['過']);
            assert("刻"@ =~= seq!['刻']);
            assert("半"@ =~= seq!['半']);
            assert("差"@ =~= seq!['差']);
        }
        let minute = self.minute.value();
        let clock = self.hour.to_chinese(variant);
        let items = if minute == 0 {
            vec![clock, ("钟", "鐘").to_chinese(variant)]
        } else if (1 <= minute && minute <= 14) || (16 <= minute && minute <= 29) {
            vec![clock, ("过", "過").to_chinese(variant), self.minute.to_chinese(variant)]
        } else if minute == 15 {
            vec![clock, "刻".to_chinese(variant)]
        } else if minute == 30 {
            vec![clock, "半".to_chinese(variant)]
        } else if minute == 45 {
            vec![clock, 3u8.to_chinese(variant), "刻".to_chinese(variant)]
        } else {
            let left = self.minute.complement().unwrap();
            vec![
                self.hour.next().to_chinese(variant),
                "差".to_chinese(variant),
                left.to_chinese(variant),
            ]
        };
        let parts = ChineseVec::new(items);
        proof {
            if items@.len() == 2 {
                assert(parts@ =~= seq![items@[0]@, items@[1]@]);
            } else {
                assert(parts@ =~= seq![items@[0]@, items@[1]@, items@[2]@]);
            }
        }
        parts.collect()
    }
}


/// An hour of the digital clock can be obtained from a number from 0 to 23.
impl TryFrom<u8> for Hour24 {
    type Error = HourOutOfRange;

    fn try_from(value: u8) -> Result<Hour24, HourOutOfRange> {
        Hour24::try_new(value)
    }
}

impl vstd::std_specs::convert::TryFromSpecImpl<u8> for Hour24 {
    open spec fn obeys_try_from_spec() -> bool {
        true
    }

    closed spec fn try_from_spec(value: u8) -> Result<Hour24, HourOutOfRange> {
        if value < 24 {
            Ok(Hour24(Count(value as u128)))
        } else {
            Err(HourOutOfRange(value))
        }
    }
}

/// An hour of the analog clock can be obtained from a number from 1 to 12.
impl TryFrom<u8> for Hour12 {
    type Error = CrateError;

    fn try_from(value: u8) -> Result<Hour12, CrateError> {
        Hour12::try_new(value)
    }
}

impl vstd::std_specs::convert::TryFromSpecImpl<u8> for Hour12 {
    open spec fn obeys_try_from_spec() -> bool {
        true
    }

    closed spec fn try_from_spec(value: u8) -> Result<Hour12, CrateError> {
        if 1 <= value <= 12 {
            Ok(Hour12(Count(value as u128)))
        } else {
            Err(CrateError::HourOutOfRange(value))
        }
    }
}

/// A minute can be obtained from a number from 0 to 59.
impl TryFrom<u8> for Minute {
    type Error = MinuteOutOfRange;

    fn try_from(value: u8) -> Result<Minute, MinuteOutOfRange> {
        Minute::try_new(value)
    }
}

impl vstd::std_specs::convert::TryFromSpecImpl<u8> for Minute {
    open spec fn obeys_try_from_spec() -> bool {
        true
    }

    closed spec fn try_from_spec(value: u8) -> Result<Minute, MinuteOutOfRange> {
        if value < 60 {
            Ok(Minute(value))
        } else {
            Err(MinuteOutOfRange(value))
        }
    }
}

/// A second can be obtained from a number from 0 to 59.
impl TryFrom<u8> for Second {
    type Error = SecondOutOfRange;

    fn try_from(value: u8) -> Result<Second, SecondOutOfRange> {
        Second::try_new(value)
    }
}

impl vstd::std_specs::convert::TryFromSpecImpl<u8> for Second {
    open spec fn obeys_try_from_spec() -> bool {
        true
    }

    closed spec fn try_from_spec(value: u8) -> Result<Second, SecondOutOfRange> {
        if value < 60 {
            Ok(Second(value))
        } else {
            Err(SecondOutOfRange(value))
        }
    }
}

/// The analog-clock hour that shows a digital-clock hour.
impl From<Hour24> for Hour12 {
    fn from(hour24: Hour24) -> Hour12 {
        Hour12::from_hour24(hour24)
    }
}

impl vstd::std_specs::convert::FromSpecImpl<Hour24> for Hour12 {
    open spec fn obeys_from_spec() -> bool {
        true
    }

    closed spec fn from_spec(hour24: Hour24) -> Hour12 {
        Hour12(Count(hour12_of(hour24@)))
    }
}

/// The part of the day of a digital-clock hour.
impl From<Hour24> for DayPart {
    fn from(hour24: Hour24) -> DayPart {
        DayPart::from_hour24(hour24)
    }
}

impl vstd::std_specs::convert::FromSpecImpl<Hour24> for DayPart {
    open spec fn obeys_from_spec() -> bool {
        true
    }

    open spec fn from_spec(hour24: Hour24) -> DayPart {
        day_part_of(hour24@)
    }
}

impl From<HourOutOfRange> for CrateError {
    fn from(error: HourOutOfRange) -> CrateError {
        CrateError::HourOutOfRange(error.0)
    }
}

impl vstd::std_specs::convert::FromSpecImpl<HourOutOfRange> for CrateError {
    open spec fn obeys_from_spec() -> bool {
        true
    }

    open spec fn from_spec(error: HourOutOfRange) -> CrateError {
        CrateError::HourOutOfRange(error.0)
    }
}

impl From<MinuteOutOfRange> for CrateError {
    fn from(error: MinuteOutOfRange) -> CrateError {
        CrateError::MinuteOutOfRange(error.0)
    }
}

impl vstd::std_specs::convert::FromSpecImpl<MinuteOutOfRange> for CrateError {
    open spec fn obeys_from_spec() -> bool {
        true
    }

    open spec fn from_spec(error: MinuteOutOfRange) -> CrateError {
        CrateError::MinuteOutOfRange(error.0)
    }
}

impl From<SecondOutOfRange> for CrateError {
    fn from(error: SecondOutOfRange) -> CrateError {
        CrateError::SecondOutOfRange(error.0)
    }
}

impl vstd::std_specs::convert::FromSpecImpl<SecondOutOfRange> for CrateError {
    open spec fn obeys_from_spec() -> bool {
        true
    }

    open spec fn from_spec(error: SecondOutOfRange) -> CrateError {
        CrateError::SecondOutOfRange(error.0)
    }
}

} // verus!
