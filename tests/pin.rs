use kedqr_cli::{BadPinError, QRPin};
use std::str::FromStr;

#[test]
fn parse_pin_successfully() {
    for (pin, pwd) in &[
        ("0000", (0, 0, 0, 0)),
        ("1123", (1, 1, 2, 3)),
        ("0002", (0, 0, 0, 2)),
    ] {
        let qr_pin = QRPin::from_str(pin).unwrap();
        assert_eq!(qr_pin, QRPin { password: *pwd })
    }
}

#[test]
fn pins_that_do_not_satisfy_length_reqs_return_error() {
    for bad_pin in &["", "1", "11", "111", "11111"] {
        let qr_pin = QRPin::from_str(bad_pin);
        assert!(qr_pin.is_err(),)
    }
}

#[test]
fn pins_that_do_not_satisfy_content_reqs_return_error() {
    for bad_pin in &["    ", " 111", "llll", "000u"] {
        let qr_pin = QRPin::from_str(bad_pin);
        assert!(qr_pin.is_err(),)
    }
}

#[test]
fn all_digit_pins_keep_their_digits_in_order() {
    assert_eq!(QRPin::from_str("9876"), Ok(QRPin { password: (9, 8, 7, 6) }));
    assert_eq!(QRPin::from_str("5090"), Ok(QRPin { password: (5, 0, 9, 0) }));
}

#[test]
fn parsing_twice_gives_equal_pins() {
    let a = QRPin::from_str("4321").unwrap();
    let b = QRPin::from_str("4321").unwrap();
    assert_eq!(a, b);
}

#[test]
fn non_ascii_digits_are_rejected() {
    assert_eq!(QRPin::from_str("\u{661}\u{662}\u{663}\u{664}"), Err(BadPinError {}));
    assert_eq!(QRPin::from_str("12\u{ff13}4"), Err(BadPinError {}));
    assert_eq!(QRPin::from_str("123\n"), Err(BadPinError {}));
    assert_eq!(QRPin::from_str("1234 "), Err(BadPinError {}));
}

#[test]
fn length_counts_characters_not_bytes() {
    assert!(QRPin::from_str("\u{e9}1").is_err());
    assert!(QRPin::from_str("12\u{e9}").is_err());
}

#[test]
fn pin_parses_through_from_str_trait() {
    let p: QRPin = "0417".parse().unwrap();
    assert_eq!(p, QRPin { password: (0, 4, 1, 7) });
    assert!("04a7".parse::<QRPin>().is_err());
}

#[test]
fn password_bytes_are_the_digits_in_order() {
    let p = QRPin::from_str("3071").unwrap();
    assert_eq!(p.password_bytes(), [3, 0, 7, 1]);
}

#[test]
fn bad_pin_message() {
    assert_eq!(BadPinError {}.message(), "The PIN must consist of 4 digits.");
}
