use alemat::elements::radicals::Radical;
use alemat::elements::{Element, Ident, Num, Text};
use alemat::numeral::is_two;
use alemat::text::{decimal_string, signed_decimal_string};

#[test]
fn plain_numerals_for_two() {
    for text in ["2", "+2", "02", "002", "2.", "2.0", "2.000", "+2.0", "02.00"] {
        assert!(is_two(text), "{}", text);
    }
}

#[test]
fn numerals_for_two_with_an_exponent() {
    for text in [
        "2e0", "2E0", "2e+0", "2e-0", "2e00", "20e-1", "200E-2", "0.2e1", ".2e1", ".02E2",
        "+.2e+1", "0.002e3", "2000e-3", "2.0e0", "20.0e-1",
    ] {
        assert!(is_two(text), "{}", text);
    }
}

#[test]
fn numerals_for_other_numbers() {
    for text in [
        "0", "1", "3", "-2", "-2.0", "22", "20", "0.2", "2.5", "2.01", "12", "21", "2e1", "2e-1",
        "20e1", "0.2e2", "0.0", "00", "2.00000001", "1.9999999", "0e0",
        "2e99999999999999999999999999", "2e-99999999999999999999999999",
        "2e18446744073709551616", "20e-18446744073709551617",
    ] {
        assert!(!is_two(text), "{}", text);
    }
}

#[test]
fn texts_that_are_no_numerals() {
    for text in [
        "", " ", "+", "-", ".", "e", "e0", ".e0", "2e", "2e+", "2 ", " 2", "2x", "x2", "2..0",
        "2.0.0", "++2", "2e0e0", "2_0", "two", "inf", "nan", "infinity", "0x2", "\u{0662}",
        "2\u{00A0}", "\u{FF12}",
    ] {
        assert!(!is_two(text), "{:?}", text);
    }
}

fn radical(index: Element) -> Radical {
    Radical::builder()
        .index(index)
        .content(Ident::from("x"))
        .build()
}

#[test]
fn a_radical_is_square_by_its_index() {
    assert!(radical(Element::from(Num::from(2))).is_square());
    assert!(radical(Element::from(Num::from(2u64))).is_square());
    assert!(radical(Element::from(Num::from("2.0"))).is_square());
    assert!(!radical(Element::from(Num::from(3))).is_square());
    assert!(!radical(Element::from(Num::from(-2))).is_square());
    assert!(!radical(Element::from(Num::from("two"))).is_square());
    assert!(!radical(Element::from(Text::from("2"))).is_square());
    assert!(!radical(Element::from(Ident::from("2"))).is_square());
}

#[test]
fn a_radical_with_more_or_less_than_one_index_element_is_not_square() {
    let none = Radical::builder()
        .index(Vec::<Element>::new())
        .content(Ident::from("x"))
        .build();
    assert!(!none.is_square());
    assert_eq!(none.index().len(), 0);
    let two = Radical::builder()
        .index([Element::from(Num::from(2)), Element::from(Num::from(2))])
        .content(Ident::from("x"))
        .build();
    assert!(!two.is_square());
    assert_eq!(two.index().len(), 1);
}

#[test]
fn decimal_numerals_of_unsigned_integers() {
    assert_eq!(decimal_string(0), "0");
    assert_eq!(decimal_string(7), "7");
    assert_eq!(decimal_string(10), "10");
    assert_eq!(decimal_string(1234567890), "1234567890");
    assert_eq!(
        decimal_string(u128::MAX),
        "340282366920938463463374607431768211455"
    );
}

#[test]
fn decimal_numerals_of_signed_integers() {
    assert_eq!(signed_decimal_string(0), "0");
    assert_eq!(signed_decimal_string(-1), "-1");
    assert_eq!(signed_decimal_string(42), "42");
    assert_eq!(signed_decimal_string(-1000), "-1000");
    assert_eq!(
        signed_decimal_string(i128::MAX),
        "170141183460469231731687303715884105727"
    );
    assert_eq!(
        signed_decimal_string(i128::MIN),
        "-170141183460469231731687303715884105728"
    );
}

#[test]
fn a_number_element_holds_the_decimal_numeral_of_its_integer() {
    assert_eq!(Num::from(0u8).num(), "0");
    assert_eq!(Num::from(u8::MAX).num(), "255");
    assert_eq!(Num::from(u16::MAX).num(), "65535");
    assert_eq!(Num::from(u32::MAX).num(), "4294967295");
    assert_eq!(Num::from(u64::MAX).num(), "18446744073709551615");
    assert_eq!(
        Num::from(u128::MAX).num(),
        "340282366920938463463374607431768211455"
    );
    assert_eq!(Num::from(usize::MAX).num(), usize::MAX.to_string());
    assert_eq!(Num::from(i8::MIN).num(), "-128");
    assert_eq!(Num::from(i16::MIN).num(), "-32768");
    assert_eq!(Num::from(i32::MIN).num(), "-2147483648");
    assert_eq!(Num::from(i64::MIN).num(), "-9223372036854775808");
    assert_eq!(
        Num::from(i128::MIN).num(),
        "-170141183460469231731687303715884105728"
    );
    assert_eq!(Num::from(isize::MIN).num(), isize::MIN.to_string());
    assert_eq!(Num::from(23456).num(), "23456");
    assert_eq!(Num::from("3.14").num(), "3.14");
    assert!(Num::from(5).attributes().is_empty());
}
