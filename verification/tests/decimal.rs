use apcacli::decimal::{format_quantity, is_integer, is_zero, Decimal};

fn fraction(numer: &str, denom: &str) -> Decimal {
    Decimal::from_fraction(numer, denom).unwrap()
}

#[test]
fn whole_quantity_is_written_without_fraction() {
    assert_eq!(format_quantity(&fraction("1500", "1")), "1500");
    assert_eq!(format_quantity(&fraction("7", "1")), "7");
    assert_eq!(format_quantity(&fraction("0", "1")), "0");
}

#[test]
fn quantity_is_rounded_half_to_even() {
    assert_eq!(format_quantity(&fraction("1", "2")), "0");
    assert_eq!(format_quantity(&fraction("3", "2")), "2");
    assert_eq!(format_quantity(&fraction("5", "2")), "2");
    assert_eq!(format_quantity(&fraction("7", "2")), "4");
    assert_eq!(format_quantity(&fraction("249", "100")), "2");
    assert_eq!(format_quantity(&fraction("251", "100")), "3");
}

#[test]
fn negative_quantity_keeps_its_sign() {
    assert_eq!(format_quantity(&fraction("-5", "2")), "-2");
    assert_eq!(format_quantity(&fraction("-7", "2")), "-4");
    assert_eq!(format_quantity(&fraction("7", "-2")), "-4");
    assert_eq!(format_quantity(&fraction("-7", "-2")), "4");
}

#[test]
fn price_keeps_its_fraction() {
    assert_eq!(fraction("1005", "10").to_text(), "100.5");
    assert_eq!(fraction("201", "2").to_text(), "100.5");
    assert_eq!(fraction("95", "1").to_text(), "95");
    assert_eq!(fraction("400032", "100").to_text(), "4000.32");
    assert_eq!(fraction("-5", "4").to_text(), "-1.25");
}

#[test]
fn price_is_cut_at_eight_fractional_digits() {
    assert_eq!(fraction("1", "3").to_text(), "0.33333333");
    assert_eq!(fraction("2", "3").to_text(), "0.66666667");
}

#[test]
fn equal_fractions_have_equal_texts() {
    assert_eq!(fraction("2", "4").to_text(), fraction("1", "2").to_text());
    assert_eq!(fraction("007", "1").to_text(), fraction("7", "1").to_text());
    assert_eq!(format_quantity(&fraction("30", "2")), format_quantity(&fraction("15", "1")));
}

#[test]
fn numbers_of_any_size_are_exact() {
    let big = fraction("123456789012345678901234567890123456789", "1");
    assert_eq!(big.to_text(), "123456789012345678901234567890123456789");
    assert_eq!(format_quantity(&big), "123456789012345678901234567890123456789");
    let fine = fraction("1234567890123456789012345678901", "10000000000000000000000000000000");
    assert_eq!(fine.to_text(), "0.12345679");
}

#[test]
fn zero_denominator_is_refused() {
    assert!(Decimal::from_fraction("1", "0").is_none());
    assert!(Decimal::from_fraction("1", "-000").is_none());
    assert!(Decimal::from_fraction("1", "000").is_none());
}

#[test]
fn texts_that_are_no_integers_are_refused() {
    assert!(Decimal::from_fraction("x", "1").is_none());
    assert!(Decimal::from_fraction("", "1").is_none());
    assert!(Decimal::from_fraction("-", "1").is_none());
    assert!(Decimal::from_fraction("+1", "1").is_none());
    assert!(Decimal::from_fraction("1.5", "1").is_none());
    assert!(Decimal::from_fraction("1_000", "1").is_none());
    assert!(Decimal::from_fraction("1", "").is_none());
    assert!(Decimal::from_fraction("1", "1 ").is_none());
    assert!(Decimal::from_fraction("--1", "1").is_none());
    assert!(Decimal::from_fraction("\u{663}", "1").is_none());
}

#[test]
fn integer_literals_are_recognised() {
    assert!(is_integer("0"));
    assert!(is_integer("-0"));
    assert!(is_integer("0042"));
    assert!(is_integer("-17"));
    assert!(!is_integer(""));
    assert!(!is_integer("-"));
    assert!(!is_integer("1-"));
    assert!(!is_integer("12a"));
}

#[test]
fn zero_literals_are_recognised() {
    assert!(is_zero("0"));
    assert!(is_zero("-0"));
    assert!(is_zero("0000"));
    assert!(!is_zero("10"));
    assert!(!is_zero("-001"));
}

#[test]
fn parts_are_kept_as_given() {
    let number = fraction("-0012", "040");
    assert_eq!(number.numerator(), "-0012");
    assert_eq!(number.denominator(), "040");
    assert_eq!(number.to_text(), "-0.3");
}

#[test]
fn clone_is_the_same_number() {
    let number = fraction("1005", "10");
    let copy = number.clone();
    assert_eq!(copy.numerator(), "1005");
    assert_eq!(copy.denominator(), "10");
    assert_eq!(copy.to_text(), number.to_text());
}

fn rounded_half_to_even(numer: i64, denom: i64) -> String {
    let negative = (numer < 0) != (denom < 0) && numer != 0;
    let (n, d) = (numer.abs(), denom.abs());
    let (whole, rest) = (n / d, n % d);
    let up = 2 * rest > d || (2 * rest == d && whole % 2 == 1);
    let magnitude = if up { whole + 1 } else { whole };
    if negative {
        format!("-{}", magnitude)
    } else {
        format!("{}", magnitude)
    }
}

#[test]
fn every_small_fraction_is_rounded_to_the_nearest_whole_number() {
    for numer in -60i64..=60 {
        for denom in -8i64..=8 {
            let made = Decimal::from_fraction(&numer.to_string(), &denom.to_string());
            if denom == 0 {
                assert!(made.is_none());
                continue;
            }
            let number = made.unwrap();
            assert_eq!(
                format_quantity(&number),
                rounded_half_to_even(numer, denom),
                "{} / {}",
                numer,
                denom
            );
        }
    }
}

#[test]
fn negative_fraction_that_rounds_to_zero_keeps_its_sign() {
    assert_eq!(format_quantity(&fraction("-2", "5")), "-0");
    assert_eq!(format_quantity(&fraction("-0", "5")), "0");
    assert_eq!(fraction("-0", "5").to_text(), "0");
}

#[test]
fn every_small_fraction_has_a_text_that_reads_as_itself() {
    for numer in -40i64..=40 {
        for denom in [1i64, 2, 4, 5, 8, 10, 16, 20, 25, 100, -2, -5] {
            let number = fraction(&numer.to_string(), &denom.to_string());
            let text = number.to_text();
            let value: f64 = text.parse().unwrap();
            assert_eq!(value, numer as f64 / denom as f64, "{} / {}: {}", numer, denom, text);
        }
    }
}

#[test]
fn literals_with_leading_zeros_and_signed_zero_are_taken() {
    assert_eq!(fraction("000", "1").to_text(), "0");
    assert_eq!(fraction("-000", "-001").to_text(), "0");
    assert_eq!(fraction("0010", "0004").to_text(), "2.5");
    assert_eq!(format_quantity(&fraction("0010", "0004")), "2");
    assert_eq!(format_quantity(&fraction("-0", "-1")), "0");
}
