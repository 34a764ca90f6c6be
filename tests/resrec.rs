use dns_codec::{QClass, QType};

#[test]
fn codes_of_types_and_classes() {
    assert_eq!(QType::A.code(), 1);
    assert_eq!(QType::TXT.code(), 16);
    assert_eq!(QType::AXFR.code(), 252);
    assert_eq!(QType::WildCard.code(), 255);
    assert_eq!(QClass::IN.code(), 1);
    assert_eq!(QClass::HS.code(), 4);
    assert_eq!(QClass::WildCard.code(), 255);
}

#[test]
fn unknown_codes_become_wildcard() {
    assert_eq!(QType::from(17), QType::WildCard);
    assert_eq!(QType::from(0), QType::WildCard);
    assert_eq!(QType::from(0x0101), QType::WildCard);
    assert_eq!(QType::from(253), QType::MAILB);
    assert_eq!(QClass::from(5), QClass::WildCard);
    assert_eq!(QClass::from(3), QClass::CH);
}

#[test]
fn type_and_class_codes_round_trip() {
    for t in [QType::A, QType::NS, QType::CNAME, QType::MX, QType::MAILA, QType::WildCard] {
        assert_eq!(QType::from(t.code()), t);
    }
    for c in [QClass::IN, QClass::CS, QClass::CH, QClass::HS, QClass::WildCard] {
        assert_eq!(QClass::from(c.code()), c);
    }
}
