use chinese_format::currency::DimesOutOfRange;
use chinese_format::gregorian::{InvalidDate, InvalidDatePattern, MonthOutOfRange};
use chinese_format::length::{Centimeter, Kilometer, Meter};
use chinese_format::weight::{HalfKilogram, Kilogram};
use chinese_format::{
    Chinese, ChineseFormat, ChineseVec, Count, CrateError, Decimal, EmptyPlaceholder, Fraction,
    LeftPadder, LingPlaceholder, Measure, Sign, Variant, ZeroDenominator,
};
use digit_sequence::DigitSequence;
use std::collections::hash_map::DefaultHasher;
use std::hash::{Hash, Hasher};

fn hash_of<T: Hash>(value: &T) -> u64 {
    let mut hasher = DefaultHasher::new();
    value.hash(&mut hasher);
    hasher.finish()
}

fn chinese(logograms: &str, omissible: bool) -> Chinese {
    Chinese { logograms: logograms.to_string(), omissible }
}

fn mixed_vec() -> ChineseVec {
    let v = Variant::Simplified;
    ChineseVec::new(vec![
        0.to_chinese(v),
        "".to_chinese(v),
        Count(0).to_chinese(v),
        8.to_chinese(v),
        "".to_chinese(v),
        "好".to_chinese(v),
        "".to_chinese(v),
        0.to_chinese(v),
        Count(0).to_chinese(v),
    ])
}

#[test]
fn strings_render_as_themselves() {
    assert_eq!("星期".to_chinese(Variant::Traditional), "星期");
    assert_eq!("天气".to_chinese(Variant::Traditional), "天气");
    assert!(!"Test".to_chinese(Variant::Simplified).omissible);
    assert!("".to_chinese(Variant::Simplified).omissible);
    assert_eq!("走".to_string().to_chinese(Variant::Simplified), "走");
    assert!("".to_string().to_chinese(Variant::Simplified).omissible);
}

#[test]
fn options_render_their_content() {
    assert_eq!(Some(90u8).to_chinese(Variant::Simplified), chinese("九十", false));
    assert_eq!(Some(0u8).to_chinese(Variant::Simplified), chinese("零", true));
    let none: Option<i8> = None;
    assert_eq!(none.to_chinese(Variant::Simplified), chinese("", true));
}

#[test]
fn pairs_choose_by_variant() {
    assert_eq!(("天气", "天氣").to_chinese(Variant::Simplified), "天气");
    assert_eq!(("天气", "天氣").to_chinese(Variant::Traditional), "天氣");
    assert_eq!((92, 0).to_chinese(Variant::Simplified), chinese("九十二", false));
    assert_eq!((92, 0).to_chinese(Variant::Traditional), chinese("零", true));
}

#[test]
fn sign_identity_ignores_magnitude() {
    assert_eq!(Sign(-9), Sign(-3));
    assert_eq!(Sign(0), Sign(0));
    assert_eq!(Sign(13), Sign(90));
    assert_ne!(Sign(-9), Sign(0));
    assert_ne!(Sign(-9), Sign(7));
    assert_ne!(Sign(0), Sign(-9));
    assert_ne!(Sign(0), Sign(13));
    assert_ne!(Sign(13), Sign(-9));
    assert!(Sign(0) > Sign(-4));
    assert!(Sign(0) < Sign(17));
    assert!(Sign(-90) <= Sign(-4));
}

#[test]
fn sign_rendering() {
    assert_eq!(Sign(90).to_chinese(Variant::Simplified), chinese("", true));
    assert_eq!(Sign(0).to_chinese(Variant::Traditional), chinese("", true));
    assert_eq!(Sign(-7).to_chinese(Variant::Simplified), chinese("负", false));
    assert_eq!(Sign(-7).to_chinese(Variant::Traditional), "負");
}

#[test]
fn vector_from_renders_in_order() {
    let items = [Count(7), Count(2), Count(0)];
    let vector = ChineseVec::from(Variant::Traditional, &items);
    let rendered: Vec<Chinese> = items.iter().map(|c| c.to_chinese(Variant::Traditional)).collect();
    assert_eq!(vector.items(), rendered);
    assert_eq!(vector.collect(), chinese("七兩零", false));
}

#[test]
fn collect_concatenates_each_rendering() {
    let v = Variant::Simplified;
    let vector = ChineseVec::new(vec![
        Sign(-5).to_chinese(v),
        7.to_chinese(v),
        "分之".to_chinese(v),
        5.to_chinese(v),
    ]);
    assert_eq!(vector.collect(), chinese("负七分之五", false));
    let basic = ChineseVec::new(vec![9.to_chinese(v), "点".to_chinese(v), 4.to_chinese(v), "分".to_chinese(v)]);
    assert_eq!(basic.collect(), chinese("九点四分", false));
}

#[test]
fn collect_of_empty_vector() {
    assert_eq!(ChineseVec::new(vec![]).collect(), chinese("", true));
}

#[test]
fn collect_is_omissible_only_when_all_items_are() {
    let v = Variant::Simplified;
    let inner = ChineseVec::new(vec![
        Sign(9).to_chinese(v),
        EmptyPlaceholder::new(&Meter::new(0)).to_chinese(v),
    ]);
    let only_omissible = ChineseVec::new(vec![
        0.to_chinese(v),
        Count(0).to_chinese(v),
        "".to_chinese(v),
        inner.to_chinese(v),
        ("", "Test").to_chinese(v),
    ]);
    assert_eq!(only_omissible.collect(), chinese("零零", true));
    assert!(!mixed_vec().collect().omissible);
}

#[test]
fn trim_start_drops_leading_omissibles() {
    assert_eq!(mixed_vec().trim_start().collect(), chinese("八好零零", false));
}

#[test]
fn trim_end_drops_trailing_omissibles() {
    assert_eq!(mixed_vec().trim_end().collect(), chinese("零零八好", false));
    let v = Variant::Simplified;
    let vector = ChineseVec::new(vec![
        8.to_chinese(v),
        "".to_chinese(v),
        "好".to_chinese(v),
        "".to_chinese(v),
        0.to_chinese(v),
        Count(0).to_chinese(v),
    ]);
    assert_eq!(vector.trim_end().collect(), chinese("八好", false));
}

#[test]
fn trims_are_idempotent() {
    let once = mixed_vec().trim_end();
    assert_eq!(once.trim_end().items(), once.items());
    let once = mixed_vec().trim_start();
    assert_eq!(once.trim_start().items(), once.items());
    let v = Variant::Simplified;
    let all_omissible = ChineseVec::new(vec![0.to_chinese(v), "".to_chinese(v)]);
    assert!(all_omissible.trim_start().items().is_empty());
    assert!(all_omissible.trim_end().items().is_empty());
}

#[test]
fn vector_ignores_the_variant() {
    let vector = ChineseVec::new(vec!["飞".to_chinese(Variant::Simplified), "机".to_chinese(Variant::Simplified)]);
    assert_eq!(vector.to_chinese(Variant::Traditional), "飞机");
}

#[test]
fn ling_placeholder() {
    let kept = LingPlaceholder::new(&"二九零四");
    assert_eq!(kept.to_chinese(Variant::Simplified), chinese("二九零四", false));
    let replaced = LingPlaceholder::new(&"");
    assert_eq!(replaced.to_chinese(Variant::Simplified), chinese("零", true));
    assert_eq!(replaced.to_chinese(Variant::Traditional), "零");
}

#[test]
fn empty_placeholder() {
    let kept = EmptyPlaceholder::new(&"二九零四");
    assert_eq!(kept.to_chinese(Variant::Traditional), chinese("二九零四", false));
    let replaced = EmptyPlaceholder::new(&0);
    assert_eq!(replaced.to_chinese(Variant::Simplified), chinese("", true));
}

#[test]
fn measures_take_the_value_omissibility() {
    let two_km = Kilometer::new(2);
    assert_eq!(two_km.to_chinese(Variant::Simplified), chinese("两公里", false));
    assert_eq!(two_km.to_chinese(Variant::Traditional), chinese("兩公里", false));
    assert_eq!(Centimeter::new(2).to_chinese(Variant::Traditional), chinese("兩釐米", false));
    assert_eq!(Centimeter::new(2).unit().to_chinese(Variant::Simplified), "厘米");
    assert_eq!(*Centimeter::new(2).value(), Count(2));
    assert_eq!(Meter::new(0).to_chinese(Variant::Simplified), chinese("零米", true));
    assert_eq!(Kilogram::new(2).to_chinese(Variant::Traditional), chinese("兩公斤", false));
    assert_eq!(HalfKilogram::new(0).to_chinese(Variant::Simplified), chinese("零斤", true));
}

#[test]
fn fraction_construction() {
    let fraction = Fraction::try_new(8, 3).unwrap();
    assert_eq!(fraction.numerator(), 3);
    assert_eq!(fraction.denominator(), 8);
    assert_eq!(Fraction::try_new(0, 3), Err(CrateError::ZeroDenominator));
    assert_eq!(Fraction::try_new(0, 0), Err(CrateError::ZeroDenominator));
}

#[test]
fn fraction_rendering() {
    let positive = Fraction::try_new(8, 3).unwrap();
    assert_eq!(positive.to_chinese(Variant::Simplified), chinese("八分之三", false));
    let zero = Fraction::try_new(8, 0).unwrap();
    assert_eq!(zero.to_chinese(Variant::Traditional), chinese("零", true));
    let negative = Fraction::try_new(3, -11).unwrap();
    assert_eq!(negative.to_chinese(Variant::Simplified), chinese("负三分之十一", false));
    assert_eq!(negative.to_chinese(Variant::Traditional), "負三分之十一");
    let extreme = Fraction::try_new(2, i128::MIN).unwrap();
    assert!(extreme.to_chinese(Variant::Simplified).logograms.starts_with("负二分之一百七十涧"));
}

#[test]
fn digit_sequences_render_digit_by_digit() {
    let sequence: DigitSequence = "9876543210123456789".parse().unwrap();
    assert_eq!(sequence.to_chinese(Variant::Simplified), chinese("九八七六五四三二一零一二三四五六七八九", false));
    assert_eq!(DigitSequence::new().to_chinese(Variant::Traditional), chinese("", true));
    let zero: DigitSequence = "0".parse().unwrap();
    assert_eq!(zero.to_chinese(Variant::Simplified), chinese("零", false));
}

#[test]
fn decimal_rendering() {
    let decimal = Decimal { integer: 96, fractional: 753u16.into() };
    assert_eq!(decimal.to_chinese(Variant::Simplified), chinese("九十六点七五三", false));
    assert_eq!(decimal.to_chinese(Variant::Traditional), chinese("九十六點七五三", false));
    let integer_only = Decimal { integer: 90, fractional: DigitSequence::new() };
    assert_eq!(integer_only.to_chinese(Variant::Simplified), chinese("九十", false));
    let zero = Decimal { integer: 0, fractional: DigitSequence::new() };
    assert_eq!(zero.to_chinese(Variant::Traditional), chinese("零", true));
    let zero_comma = Decimal { integer: 0, fractional: 9052u16.into() };
    assert_eq!(zero_comma.to_chinese(Variant::Simplified), chinese("零点九零五二", false));
    let negative = Decimal { integer: -487, fractional: 309u16.into() };
    assert_eq!(negative.to_chinese(Variant::Traditional), chinese("負四百八十七點三零九", false));
    assert_eq!(decimal.clone(), decimal);
}

#[test]
fn left_padding() {
    let padded = LeftPadder { logogram: '零', min_width: 3, source: &"五分" };
    assert_eq!(padded.to_chinese(Variant::Simplified), chinese("零五分", false));
    let padded = LeftPadder { logogram: '零', min_width: 5, source: &"五分" };
    assert_eq!(padded.to_chinese(Variant::Simplified), "零零零五分");
    let padded = LeftPadder { logogram: '零', min_width: 0, source: &"五分" };
    assert_eq!(padded.to_chinese(Variant::Simplified), "五分");
    let padded = LeftPadder { logogram: '#', min_width: 4, source: &"" };
    assert_eq!(padded.to_chinese(Variant::Simplified), chinese("####", true));
}

#[test]
fn chinese_compares_with_strings() {
    let value = chinese("电脑", false);
    assert_eq!(value, "电脑");
    assert_eq!(value, "电脑".to_string());
    assert_ne!(value, chinese("电脑", true));
}

#[test]
fn error_messages() {
    assert_eq!(CrateError::ZeroDenominator.message(), "Zero passed as denominator");
    assert_eq!(CrateError::DimesOutOfRange(200).message(), "Dimes out of range: 200");
    assert_eq!(CrateError::CentsOutOfRange(200).message(), "Cents out of range: 200");
    assert_eq!(CrateError::MonthOutOfRange(90).message(), "Month out of range: 90");
    assert_eq!(CrateError::DayOutOfRange(90).message(), "Day out of range: 90");
    assert_eq!(CrateError::WeekDayOutOfRange(7).message(), "Week day out of range: 7");
    assert_eq!(CrateError::HourOutOfRange(0).message(), "Hour out of range: 0");
    assert_eq!(CrateError::InvalidDatePattern("dw".to_string()).message(), "Invalid date pattern: dw");
    assert_eq!(
        CrateError::InvalidDate { year: None, month: 2, day: 31 }.message(),
        "Invalid date: 2-31"
    );
    assert_eq!(
        CrateError::InvalidDate { year: Some(1986), month: 2, day: 31 }.message(),
        "Invalid date: 1986-2-31"
    );
}

#[test]
fn single_errors_convert_to_crate_errors() {
    assert_eq!(CrateError::from(ZeroDenominator), CrateError::ZeroDenominator);
    assert_eq!(CrateError::from(DimesOutOfRange(230)), CrateError::DimesOutOfRange(230));
    assert_eq!(CrateError::from(MonthOutOfRange(13)), CrateError::MonthOutOfRange(13));
    assert_eq!(
        CrateError::from(InvalidDatePattern("yd".to_string())),
        CrateError::InvalidDatePattern("yd".to_string())
    );
    assert_eq!(
        CrateError::from(InvalidDate { year: Some(2023), month: 2, day: 29 }),
        CrateError::InvalidDate { year: Some(2023), month: 2, day: 29 }
    );
}

#[test]
fn sign_hash_follows_the_sign_class() {
    assert_eq!(hash_of(&Sign(-54)), hash_of(&Sign(-7)));
    assert_eq!(hash_of(&Sign(0)), hash_of(&Sign(0)));
    assert_eq!(hash_of(&Sign(3)), hash_of(&Sign(90)));
    assert_ne!(hash_of(&Sign(-54)), hash_of(&Sign(0)));
    assert_ne!(hash_of(&Sign(0)), hash_of(&Sign(90)));
}
