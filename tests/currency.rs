use chinese_format::currency::{
    Cent, CentsOutOfRange, CurrencyStyle, Dime, DimesOutOfRange, RenminbiCurrency,
    RenminbiCurrencyBuilder, Yuan,
};
use chinese_format::{Chinese, ChineseFormat, CrateError, FinancialBase, Variant};

fn chinese(logograms: &str, omissible: bool) -> Chinese {
    Chinese { logograms: logograms.to_string(), omissible }
}

const FORMAL: CurrencyStyle = CurrencyStyle::Everyday { formal: true };
const INFORMAL: CurrencyStyle = CurrencyStyle::Everyday { formal: false };
const FINANCIAL: CurrencyStyle = CurrencyStyle::Financial;

#[test]
fn cent_create_from_value_less_than_or_equal_to_9() {
    let value = Cent::try_new(9, FINANCIAL).unwrap();
    assert_eq!(value.value(), 9);
    assert_eq!(value.style(), FINANCIAL);
}

#[test]
fn cent_create_from_value_greater_than_9() {
    assert_eq!(Cent::try_new(10, FINANCIAL), Err(CentsOutOfRange(10)))
}

#[test]
fn cent_format_everyday_formal() {
    let two = Cent::try_new(2, FORMAL).unwrap();
    assert_eq!(two.to_chinese(Variant::Simplified), chinese("两分", false));
    assert_eq!(two.to_chinese(Variant::Traditional), chinese("兩分", false));
}

#[test]
fn cent_format_everyday_formal_zero() {
    assert_eq!(Cent::try_new(0, FORMAL).unwrap().to_chinese(Variant::Simplified), chinese("零分", true));
}

#[test]
fn cent_format_everyday_informal() {
    let two = Cent::try_new(2, INFORMAL).unwrap();
    assert_eq!(two.to_chinese(Variant::Simplified), chinese("两分", false));
    assert_eq!(two.to_chinese(Variant::Traditional), chinese("兩分", false));
}

#[test]
fn cent_format_everyday_informal_zero() {
    assert_eq!(Cent::try_new(0, INFORMAL).unwrap().to_chinese(Variant::Simplified), chinese("零分", true));
}

#[test]
fn cent_format_financial() {
    let two = Cent::try_new(2, FINANCIAL).unwrap();
    assert_eq!(two.to_chinese(Variant::Simplified), chinese("贰分", false));
    assert_eq!(two.to_chinese(Variant::Traditional), chinese("貳分", false));
}

#[test]
fn cent_format_financial_zero() {
    assert_eq!(Cent::try_new(0, FINANCIAL).unwrap().to_chinese(Variant::Simplified), chinese("零分", true));
}

#[test]
fn cent_convert_to_the_underlying_numeric_type() {
    let converted: u8 = Cent::try_new(5, FINANCIAL).unwrap().into();
    assert_eq!(converted, 5);
}

#[test]
fn dime_create_from_value_less_than_or_equal_to_9() {
    let value = Dime::try_new(9, FINANCIAL).unwrap();
    assert_eq!(value.value(), 9);
    assert_eq!(value.style(), FINANCIAL);
}

#[test]
fn dime_create_from_value_greater_than_9() {
    assert_eq!(Dime::try_new(10, FINANCIAL), Err(DimesOutOfRange(10)))
}

#[test]
fn dime_format_everyday_formal() {
    let two = Dime::try_new(2, FORMAL).unwrap();
    assert_eq!(two.to_chinese(Variant::Simplified), chinese("两角", false));
    assert_eq!(two.to_chinese(Variant::Traditional), chinese("兩角", false));
}

#[test]
fn dime_format_everyday_formal_zero() {
    assert_eq!(Dime::try_new(0, FORMAL).unwrap().to_chinese(Variant::Simplified), chinese("零角", true));
}

#[test]
fn dime_format_everyday_informal() {
    let two = Dime::try_new(2, INFORMAL).unwrap();
    assert_eq!(two.to_chinese(Variant::Simplified), chinese("两毛", false));
    assert_eq!(two.to_chinese(Variant::Traditional), chinese("兩毛", false));
}

#[test]
fn dime_format_everyday_informal_zero() {
    assert_eq!(Dime::try_new(0, INFORMAL).unwrap().to_chinese(Variant::Simplified), chinese("零毛", true));
}

#[test]
fn dime_format_financial() {
    let two = Dime::try_new(2, FINANCIAL).unwrap();
    assert_eq!(two.to_chinese(Variant::Simplified), chinese("贰角", false));
    assert_eq!(two.to_chinese(Variant::Traditional), chinese("貳角", false));
}

#[test]
fn dime_format_financial_zero() {
    assert_eq!(Dime::try_new(0, FINANCIAL).unwrap().to_chinese(Variant::Simplified), chinese("零角", true));
}

#[test]
fn dime_convert_to_the_underlying_numeric_type() {
    let converted: u8 = Dime::try_new(2, INFORMAL).unwrap().into();
    assert_eq!(converted, 2);
}

#[test]
fn yuan_format_everyday_formal() {
    let two = Yuan { value: 2, style: FORMAL };
    assert_eq!(two.to_chinese(Variant::Simplified), chinese("两元", false));
    assert_eq!(two.to_chinese(Variant::Traditional), chinese("兩元", false));
}

#[test]
fn yuan_format_everyday_formal_zero() {
    assert_eq!(Yuan { value: 0, style: FORMAL }.to_chinese(Variant::Simplified), chinese("零元", true));
}

#[test]
fn yuan_format_everyday_informal() {
    let two = Yuan { value: 2, style: INFORMAL };
    assert_eq!(two.to_chinese(Variant::Simplified), chinese("两块", false));
    assert_eq!(two.to_chinese(Variant::Traditional), chinese("兩块", false));
}

#[test]
fn yuan_format_everyday_informal_zero() {
    assert_eq!(Yuan { value: 0, style: INFORMAL }.to_chinese(Variant::Simplified), chinese("零块", true));
}

#[test]
fn yuan_format_financial() {
    let two = Yuan { value: 2, style: FINANCIAL };
    assert_eq!(two.to_chinese(Variant::Simplified), chinese("贰元", false));
    assert_eq!(two.to_chinese(Variant::Traditional), chinese("貳元", false));
}

#[test]
fn yuan_format_financial_zero() {
    assert_eq!(Yuan { value: 0, style: FINANCIAL }.to_chinese(Variant::Simplified), chinese("零元", true));
}

#[test]
fn yuan_convert_to_the_underlying_numeric_type() {
    let converted: FinancialBase = Yuan { value: 90, style: INFORMAL }.into();
    assert_eq!(converted, 90);
}

fn amount(yuan: u64, dimes: u8, cents: u8, style: CurrencyStyle) -> RenminbiCurrency {
    RenminbiCurrencyBuilder::new()
        .with_yuan(yuan)
        .with_dimes(dimes)
        .with_cents(cents)
        .with_style(style)
        .build()
        .unwrap()
}

#[test]
fn renminbi_informal_amount() {
    let informal = amount(7, 4, 8, INFORMAL).to_chinese(Variant::Simplified);
    assert_eq!(informal, chinese("七块四毛八分", false));
    assert_eq!(amount(7, 4, 5, INFORMAL).to_chinese(Variant::Simplified), "七块四毛五分");
}

#[test]
fn renminbi_styles() {
    assert_eq!(amount(9, 3, 8, FORMAL).to_chinese(Variant::Simplified), chinese("九元三角八分", false));
    assert_eq!(amount(2, 6, 1, FINANCIAL).to_chinese(Variant::Simplified), chinese("贰元陆角壹分整", false));
    assert_eq!(amount(7, 4, 8, FORMAL).to_chinese(Variant::Simplified), "七元四角八分");
    assert_eq!(amount(7, 4, 8, FINANCIAL).to_chinese(Variant::Simplified), "柒元肆角捌分整");
}

#[test]
fn renminbi_omitted_parts() {
    let s = Variant::Simplified;
    assert_eq!(amount(7, 4, 0, FORMAL).to_chinese(s), "七元四角");
    assert_eq!(amount(0, 4, 8, FORMAL).to_chinese(s), "四角八分");
    assert_eq!(amount(7, 0, 8, FORMAL).to_chinese(s), "七元八分");
    assert_eq!(amount(7, 0, 8, INFORMAL).to_chinese(s), "七块零八分");
    assert_eq!(amount(7, 0, 0, FORMAL).to_chinese(s), "七元");
    assert_eq!(amount(0, 4, 0, FORMAL).to_chinese(s), "四角");
    assert_eq!(amount(0, 4, 0, FINANCIAL).to_chinese(s), "肆角整");
    assert_eq!(amount(0, 0, 8, FORMAL).to_chinese(s), "八分");
    assert_eq!(amount(0, 0, 8, INFORMAL).to_chinese(s), "八分");
}

#[test]
fn renminbi_zero_amounts() {
    let s = Variant::Simplified;
    assert_eq!(RenminbiCurrencyBuilder::new().build().unwrap().to_chinese(s), chinese("零元", true));
    assert_eq!(amount(0, 0, 0, FINANCIAL).to_chinese(s), chinese("零元整", false));
}

#[test]
fn renminbi_getters() {
    let currency = amount(34, 7, 9, INFORMAL);
    assert_eq!(currency.yuan(), 34);
    assert_eq!(currency.dimes(), 7);
    assert_eq!(currency.cents(), 9);
    assert_eq!(currency.style(), INFORMAL);
}

#[test]
fn renminbi_out_of_range() {
    let dimes = RenminbiCurrencyBuilder::new().with_dimes(230).build();
    assert_eq!(dimes, Err(CrateError::DimesOutOfRange(230)));
    let cents = RenminbiCurrencyBuilder::new().with_cents(10).build();
    assert_eq!(cents, Err(CrateError::CentsOutOfRange(10)));
    let both = RenminbiCurrencyBuilder::new().with_dimes(12).with_cents(10).build();
    assert_eq!(both, Err(CrateError::DimesOutOfRange(12)));
    let edge = RenminbiCurrencyBuilder::new().with_dimes(9).with_cents(9).build();
    assert!(edge.is_ok());
    let default_builder: RenminbiCurrencyBuilder = Default::default();
    assert_eq!(default_builder.build().unwrap().style(), FORMAL);
}

#[test]
fn renminbi_informal_bridge_only_between_non_zero_parts() {
    let s = Variant::Simplified;
    assert_eq!(amount(7, 0, 0, INFORMAL).to_chinese(s), chinese("七块", false));
    assert_eq!(amount(7, 0, 0, INFORMAL).to_chinese(Variant::Traditional), "七块");
    assert_eq!(amount(7, 0, 8, INFORMAL).to_chinese(s), chinese("七块零八分", false));
    assert_eq!(amount(7, 4, 0, INFORMAL).to_chinese(s), "七块四毛");
    assert_eq!(amount(0, 0, 8, INFORMAL).to_chinese(s), "八分");
    assert_eq!(amount(0, 4, 8, INFORMAL).to_chinese(s), "四毛八分");
    assert_eq!(amount(0, 0, 0, INFORMAL).to_chinese(s), chinese("零块", true));
}
