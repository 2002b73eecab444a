use websocket_web::CloseCode;

const NAMED: [(CloseCode, u16, &str); 15] = [
    (CloseCode::NormalClosure, 1000, "normal closure"),
    (CloseCode::GoingAway, 1001, "going away"),
    (CloseCode::ProtocolError, 1002, "protocol error"),
    (CloseCode::UnsupportedData, 1003, "unsupported data"),
    (CloseCode::NoStatusRcvd, 1005, "no status rcvd"),
    (CloseCode::AbnormalClosure, 1006, "abnormal closure"),
    (CloseCode::InvalidFramePayloadData, 1007, "invalid frame payload data"),
    (CloseCode::PolicyViolation, 1008, "policy violation"),
    (CloseCode::MessageTooBig, 1009, "message too big"),
    (CloseCode::MandatoryExt, 1010, "mandatory ext"),
    (CloseCode::InternalError, 1011, "internal error"),
    (CloseCode::ServiceRestart, 1012, "service restart"),
    (CloseCode::TryAgainLater, 1013, "try again later"),
    (CloseCode::BadGateway, 1014, "bad gateway"),
    (CloseCode::TlsHandshake, 1015, "TLS handshake"),
];

#[test]
fn close_code_numbers_round_trip() {
    for value in 0..=u16::MAX {
        let code = CloseCode::from(value);
        assert_eq!(u16::from(code), value);
    }
}

#[test]
fn named_close_codes_have_their_numbers() {
    for (code, value, _) in NAMED {
        assert_eq!(u16::from(code), value);
        assert_eq!(CloseCode::from(value), code);
    }
}

#[test]
fn unnamed_numbers_are_other() {
    assert_eq!(CloseCode::from(0), CloseCode::Other(0));
    assert_eq!(CloseCode::from(999), CloseCode::Other(999));
    assert_eq!(CloseCode::from(1004), CloseCode::Other(1004));
    assert_eq!(CloseCode::from(1016), CloseCode::Other(1016));
    assert_eq!(CloseCode::from(3000), CloseCode::Other(3000));
    assert_eq!(CloseCode::from(4999), CloseCode::Other(4999));
    assert_eq!(CloseCode::from(u16::MAX), CloseCode::Other(u16::MAX));
}

#[test]
fn other_with_a_named_number_maps_to_the_name() {
    assert_eq!(u16::from(CloseCode::Other(1000)), 1000);
    assert_eq!(CloseCode::from(u16::from(CloseCode::Other(1000))), CloseCode::NormalClosure);
}

#[test]
fn close_code_texts() {
    for (code, _, text) in NAMED {
        assert_eq!(code.to_string(), text);
    }
    assert_eq!(CloseCode::Other(0).to_string(), "0");
    assert_eq!(CloseCode::Other(7).to_string(), "7");
    assert_eq!(CloseCode::Other(10).to_string(), "10");
    assert_eq!(CloseCode::Other(3500).to_string(), "3500");
    assert_eq!(CloseCode::Other(4009).to_string(), "4009");
    assert_eq!(CloseCode::Other(65535).to_string(), "65535");
}

#[test]
fn other_close_code_text_is_its_decimal_number() {
    for value in 0..=u16::MAX {
        assert_eq!(CloseCode::Other(value).to_string(), format!("{value}"));
    }
}

#[test]
fn only_normal_closure_and_application_codes_are_valid() {
    assert!(CloseCode::NormalClosure.is_valid());
    assert!(CloseCode::Other(3000).is_valid());
    assert!(CloseCode::Other(3500).is_valid());
    assert!(CloseCode::Other(4999).is_valid());
    assert!(!CloseCode::Other(2999).is_valid());
    assert!(!CloseCode::Other(5000).is_valid());
    assert!(!CloseCode::Other(0).is_valid());
    assert!(!CloseCode::Other(1000).is_valid());
    assert!(!CloseCode::Other(u16::MAX).is_valid());
    for (code, _, _) in NAMED {
        assert_eq!(code.is_valid(), code == CloseCode::NormalClosure);
    }
}

#[test]
fn valid_codes_by_number() {
    for value in 0..=u16::MAX {
        let expected = value == 1000 || (3000..=4999).contains(&value);
        assert_eq!(CloseCode::from(value).is_valid(), expected);
    }
}

#[test]
fn close_codes_are_ordered_by_declaration() {
    assert!(CloseCode::NormalClosure < CloseCode::GoingAway);
    assert!(CloseCode::BadGateway < CloseCode::TlsHandshake);
    assert!(CloseCode::TlsHandshake < CloseCode::Other(0));
    assert!(CloseCode::Other(1) < CloseCode::Other(2));
}
