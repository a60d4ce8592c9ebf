use game_of_estimates::web::headers::common::{
    c, c2, digit, ows, tchar, tchar_pred, token, QValue, Weighted,
};

#[test]
fn parse_qvalue() {
    assert_eq!(Ok(QValue(1000)), QValue::from_str("1"));
    assert_eq!(Ok(QValue(1000)), QValue::from_str("1."));
    assert_eq!(Ok(QValue(1000)), QValue::from_str("1.0"));
    assert_eq!(Ok(QValue(1000)), QValue::from_str("1.00"));
    assert_eq!(Ok(QValue(1000)), QValue::from_str("1.000"));

    assert_eq!(Ok(QValue(0000)), QValue::from_str("0"));
    assert_eq!(Ok(QValue(0000)), QValue::from_str("0."));
    assert_eq!(Ok(QValue(0000)), QValue::from_str("0.0"));
    assert_eq!(Ok(QValue(0000)), QValue::from_str("0.00"));
    assert_eq!(Ok(QValue(0000)), QValue::from_str("0.000"));

    assert_eq!(Ok(QValue(0100)), QValue::from_str("0.1"));
    assert_eq!(Ok(QValue(0900)), QValue::from_str("0.9"));
    assert_eq!(Ok(QValue(0010)), QValue::from_str("0.01"));
    assert_eq!(Ok(QValue(0001)), QValue::from_str("0.001"));
}

#[test]
fn display_qvalue() {
    assert_eq!("0", QValue(0).to_string());
    assert_eq!("1", QValue(1000).to_string());
    assert_eq!("0.1", QValue(100).to_string());
    assert_eq!("0.01", QValue(10).to_string());
    assert_eq!("0.001", QValue(1).to_string());
}

#[test]
fn display_qvalue_drops_zeros_at_the_end_only() {
    assert_eq!("0.5", QValue(500).to_string());
    assert_eq!("0.25", QValue(250).to_string());
    assert_eq!("0.125", QValue(125).to_string());
    assert_eq!("0.105", QValue(105).to_string());
    assert_eq!("0.05", QValue(50).to_string());
}

#[test]
fn qvalue_text_is_read_back() {
    for v in 0..=1000u16 {
        assert_eq!(QValue::from_str(&QValue(v).to_string()), Ok(QValue(v)));
    }
}

#[test]
fn qvalue_refuses_what_is_not_one() {
    assert_eq!(Err(()), QValue::from_str(""));
    assert_eq!(Err(()), QValue::from_str("2"));
    assert_eq!(Err(()), QValue::from_str("0.1234"));
    assert_eq!(Err(()), QValue::from_str("1.001"));
    assert_eq!(Err(()), QValue::from_str("1.0 "));
    assert_eq!(Err(()), QValue::from_str(".5"));
    assert_eq!(Err(()), QValue::from_str("0,5"));
}

#[test]
fn qvalue_parse_gives_the_position_after_the_value() {
    assert_eq!(QValue::parse(b"0.25, x", 0), Some((4, QValue(250))));
    assert_eq!(QValue::parse(b"q=1.0000", 2), Some((7, QValue(1000))));
    assert_eq!(QValue::parse(b"1.5", 0), Some((2, QValue(1000))));
    assert_eq!(QValue::parse(b"x", 0), None);
    assert_eq!(QValue::parse(b"0", 1), None);
}

#[test]
fn parse_weight_wants_semicolon_q_and_equals() {
    assert_eq!(QValue::parse_weight(b";q=0.5", 0), Some((6, QValue(500))));
    assert_eq!(QValue::parse_weight(b" \t; \tQ=1", 0), Some((8, QValue(1000))));
    assert_eq!(QValue::parse_weight(b"q=0.5", 0), None);
    assert_eq!(QValue::parse_weight(b";q =0.5", 0), None);
    assert_eq!(QValue::parse_weight(b";x=0.5", 0), None);
    assert_eq!(QValue::parse_weight(b";q=", 0), None);
}

#[test]
fn qvalue_bounds() {
    assert_eq!(QValue::unacceptable(), QValue(0));
    assert_eq!(QValue::max(), QValue(1000));
    assert_eq!(QValue::default(), QValue(1000));
    assert!(QValue(0).is_unacceptable());
    assert!(!QValue(0).is_acceptable());
    assert!(QValue(1).is_acceptable());
    assert!(!QValue(1).is_unacceptable());
    assert_eq!(QValue::from_thousandths(1000), Some(QValue(1000)));
    assert_eq!(QValue::from_thousandths(1001), None);
    assert!(QValue(100) < QValue(900));
}

#[test]
fn weighted_holds_value_and_weight() {
    let w = Weighted::new("gzip", QValue(500));
    assert_eq!(*w.value(), "gzip");
    assert_eq!(w.weight(), QValue(500));
    assert_eq!(w.into_value(), "gzip");
}

#[test]
fn parser_steps() {
    assert_eq!(ows(b" \t x", 0), 3);
    assert_eq!(ows(b"x", 0), 0);
    assert_eq!(ows(b"  ", 0), 2);
    assert_eq!(c(b";q", 0, b';'), Some(1));
    assert_eq!(c(b";q", 1, b';'), None);
    assert_eq!(c(b"", 0, b';'), None);
    assert_eq!(c2(b"Q=", 0, b'q', b'Q'), Some(1));
    assert_eq!(c2(b"x=", 0, b'q', b'Q'), None);
    assert_eq!(digit(b"a7", 1), Some((2, 7)));
    assert_eq!(digit(b"a7", 0), None);
    assert_eq!(tchar(b"a,", 0), Some(1));
    assert_eq!(tchar(b"a,", 1), None);
    assert_eq!(token(b"x-gzip;q=1", 0), Some(6));
    assert_eq!(token(b";", 0), None);
}

#[test]
fn token_characters() {
    let mut count = 0;
    for b in 0..=255u8 {
        let expected = b.is_ascii_alphanumeric() || b"!#$%&'*+-.^_`|~".contains(&b);
        assert_eq!(tchar_pred(b), expected, "byte {}", b);
        if expected {
            count += 1;
        }
    }
    assert_eq!(count, 77);
}
