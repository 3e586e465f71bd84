use shapes::dimension::Dimension;
use shapes::dimension::parse_dimension;

#[test]
fn parse_whole_numerals() {
    assert_eq!(parse_dimension("3"), Some(Dimension { raw: 30000 }));
    assert_eq!(parse_dimension("0"), Some(Dimension { raw: 0 }));
    assert_eq!(parse_dimension("42"), Some(Dimension { raw: 420000 }));
    assert_eq!(parse_dimension("007"), Some(Dimension { raw: 70000 }));
}

#[test]
fn parse_fractional_numerals() {
    assert_eq!(parse_dimension("3.5"), Some(Dimension { raw: 35000 }));
    assert_eq!(parse_dimension("2.25"), Some(Dimension { raw: 22500 }));
    assert_eq!(parse_dimension("0.0001"), Some(Dimension { raw: 1 }));
    assert_eq!(parse_dimension(".5"), Some(Dimension { raw: 5000 }));
    assert_eq!(parse_dimension("5."), Some(Dimension { raw: 50000 }));
}

#[test]
fn parse_signed_numerals() {
    assert_eq!(parse_dimension("-2.25"), Some(Dimension { raw: -22500 }));
    assert_eq!(parse_dimension("+7"), Some(Dimension { raw: 70000 }));
    assert_eq!(parse_dimension("-0"), Some(Dimension { raw: 0 }));
}

#[test]
fn parse_rejects_malformed_tokens() {
    assert_eq!(parse_dimension(""), None);
    assert_eq!(parse_dimension("."), None);
    assert_eq!(parse_dimension("-"), None);
    assert_eq!(parse_dimension("abc"), None);
    assert_eq!(parse_dimension("1e5"), None);
    assert_eq!(parse_dimension("1.2.3"), None);
    assert_eq!(parse_dimension(" 3"), None);
    assert_eq!(parse_dimension("3 "), None);
}

#[test]
fn parse_rejects_excess_precision_and_size() {
    // more than four fractional digits
    assert_eq!(parse_dimension("1.23456"), None);
    // integral part at the cap of the representable range
    assert_eq!(
        parse_dimension("99999999999999.9999"),
        Some(Dimension { raw: 999999999999999999 })
    );
    assert_eq!(parse_dimension("100000000000000"), None);
}

#[test]
fn from_whole_scales_to_ten_thousandths() {
    assert_eq!(Dimension::from_whole(3).raw, 30000);
    assert_eq!(Dimension::from_whole(-2).raw, -20000);
    assert_eq!(Dimension::zero().raw, 0);
}
