use chinese_format::{ChineseFormat, Count, Financial, Variant};

#[test]
fn check_omissible_for_zero() {
    assert!(0.to_chinese(Variant::Simplified).omissible);
    assert!(0.to_chinese(Variant::Traditional).omissible);
}

#[test]
fn check_omissible_for_nonzero() {
    assert!(!7.to_chinese(Variant::Simplified).omissible);
    assert!(!7.to_chinese(Variant::Traditional).omissible);
}

#[test]
fn numerals_match_the_reference_table() {
    let table: [(i128, &str); 16] = [
        (0, "零"),
        (1, "一"),
        (10, "十"),
        (17, "十七"),
        (86, "八十六"),
        (100, "一百"),
        (305, "三百零五"),
        (330, "三百三十"),
        (800, "八百"),
        (3_000, "三千"),
        (3_005, "三千零五"),
        (3_017, "三千零一十七"),
        (7_341, "七千三百四十一"),
        (10_000, "一万"),
        (10_008, "一万零八"),
        (321_987_653_112, "三千二百一十九亿八千七百六十五万三千一百一十二"),
    ];
    for (n, expected) in table {
        let chinese = n.to_chinese(Variant::Simplified);
        assert_eq!(chinese, expected);
        assert_eq!(chinese.omissible, n == 0);
        let unsigned = (n as u128).to_chinese(Variant::Simplified);
        assert_eq!(unsigned, expected);
        assert_eq!(unsigned.omissible, n == 0);
    }
}

#[test]
fn negative_numerals() {
    assert_eq!((-58).to_chinese(Variant::Simplified), "负五十八");
    assert_eq!((-58).to_chinese(Variant::Traditional), "負五十八");
    assert_eq!(i128::MIN.to_chinese(Variant::Simplified), "负一百七十涧一千四百一十一沟八千三百四十六穰零四百六十九秭二千三百一十七垓三千一百六十八京七千三百零三兆七千一百五十八亿八千四百一十万五千七百二十八");
}

#[test]
fn largest_unsigned_numeral() {
    assert_eq!(u128::MAX.to_chinese(Variant::Simplified), "三百四十涧二千八百二十三沟六千六百九十二穰零九百三十八秭四千六百三十四垓六千三百三十七京四千六百零七兆四千三百一十七亿六千八百二十一万一千四百五十五");
}

#[test]
fn every_width_renders_alike() {
    assert_eq!(98u8.to_chinese(Variant::Simplified), "九十八");
    assert_eq!(98u16.to_chinese(Variant::Simplified), "九十八");
    assert_eq!(98u32.to_chinese(Variant::Simplified), "九十八");
    assert_eq!(98u64.to_chinese(Variant::Simplified), "九十八");
    assert_eq!(98u128.to_chinese(Variant::Simplified), "九十八");
    assert_eq!(98i8.to_chinese(Variant::Simplified), "九十八");
    assert_eq!(98i16.to_chinese(Variant::Simplified), "九十八");
    assert_eq!(98i32.to_chinese(Variant::Simplified), "九十八");
    assert_eq!(98i64.to_chinese(Variant::Simplified), "九十八");
    assert_eq!(98i128.to_chinese(Variant::Simplified), "九十八");
    assert_eq!(305.to_chinese(Variant::Traditional), "三百零五");
}

#[test]
fn count_zero_is_an_omissible_ling() {
    let chinese = Count(0).to_chinese(Variant::Simplified);
    assert_eq!(chinese.logograms, "零");
    assert!(chinese.omissible);
    assert_eq!(Count(0).to_chinese(Variant::Traditional), "零");
}

#[test]
fn count_two_is_irregular() {
    let simplified = Count(2).to_chinese(Variant::Simplified);
    assert_eq!(simplified, "两");
    assert_ne!(simplified, "二");
    assert!(!simplified.omissible);
    let traditional = Count(2).to_chinese(Variant::Traditional);
    assert_eq!(traditional, "兩");
    assert_ne!(traditional, "二");
}

#[test]
fn count_other_values() {
    assert_eq!(Count(7).to_chinese(Variant::Simplified), "七");
    assert_eq!(Count(42).to_chinese(Variant::Traditional), "四十二");
}

#[test]
fn financial_numerals() {
    assert_eq!(Financial(2).to_chinese(Variant::Simplified), "贰");
    assert_eq!(Financial(2).to_chinese(Variant::Traditional), "貳");
    assert_eq!(Financial(10).to_chinese(Variant::Simplified), "拾");
    assert_eq!(Financial(1000).to_chinese(Variant::Traditional), "壹仟");
    let zero = Financial(0).to_chinese(Variant::Simplified);
    assert_eq!(zero, "零");
    assert!(zero.omissible);
    assert_eq!(
        Financial(u64::MAX).to_chinese(Variant::Simplified),
        "壹仟捌佰肆拾肆京陆仟柒佰肆拾肆兆零柒佰叁拾柒亿零玖佰伍拾伍万壹仟陆佰壹拾伍"
    );
    assert_eq!(
        Financial(u64::MAX).to_chinese(Variant::Traditional),
        "壹仟捌佰肆拾肆京陸仟柒佰肆拾肆兆零柒佰參拾柒億零玖佰伍拾伍萬壹仟陸佰壹拾伍"
    );
}

#[test]
fn counts_compare_with_integers() {
    let count = Count(90);
    assert_eq!(count, 90);
    assert_ne!(count, 91);
    assert!(count < 100);
    assert!(count > 70);
    assert!(!(count < 5));
    assert!(count >= 90);
}

#[test]
fn financials_compare_with_integers() {
    assert_eq!(Financial(90), 90);
    assert_ne!(Financial(90), 83);
    assert!(Financial(90) < 100);
    assert!(Financial(90) > 5);
    assert!(Financial(90) >= 90);
}

#[test]
fn zero_is_ling_for_every_width() {
    assert_eq!(0i8.to_chinese(Variant::Simplified), "零");
    assert_eq!(0i128.to_chinese(Variant::Traditional), "零");
    assert_eq!(0u64.to_chinese(Variant::Traditional), "零");
    assert!(0i64.to_chinese(Variant::Simplified).omissible);
}
