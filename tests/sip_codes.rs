use flowmon::sip::{Method, StatusCode};
use flowmon::wire::{IPv4Flags, TcpFlags};

#[test]
fn status_codes_round_trip() {
    for code in 0u16..700 {
        if let Some(s) = StatusCode::from_code(code) {
            assert_eq!(s.to_code(), code);
        }
    }
    assert_eq!(StatusCode::from_code(200), Some(StatusCode::OK));
    assert_eq!(StatusCode::from_code(199), None);
    assert_eq!(StatusCode::from_code(606).map(|s| s.to_reason_phrase()), Some("Not Acceptable"));
    assert_eq!(StatusCode::ServerTimeout.to_reason_phrase(), "Server Time-out");
    assert_eq!(StatusCode::RequestUriTooLong.to_code(), 414);
}

#[test]
fn methods_by_name() {
    assert!(matches!(Method::from_str("INVITE"), Method::Invite));
    assert!(matches!(Method::from_str("BYE"), Method::Bye));
    assert!(matches!(Method::from_str("REGISTER"), Method::Register));
    assert_eq!(Method::from_str("OPTIONS").to_str(), "OPTIONS");
    match Method::from_str("SUBSCRIBE") {
        Method::Other(s) => assert_eq!(s, "SUBSCRIBE"),
        _ => panic!("not other"),
    }
    assert_eq!(Method::from_str("invite").to_str(), "invite");
    assert_eq!(Method::Ack.to_str(), "ACK");
    assert_eq!(Method::Cancel.to_str(), "CANCEL");
}

#[test]
fn flag_bits() {
    let f = TcpFlags::new(0x13);
    assert!(f.is_syn() && f.is_ack() && f.is_fin() && !f.is_rst());
    let g = IPv4Flags::new(0b011);
    assert!(g.is_more_fragments() && g.is_dont_fragment());
    assert!(!IPv4Flags::new(0b100).is_more_fragments());
}
