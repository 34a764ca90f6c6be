use dns_codec::{
    respond, AuthoritativeAnswer, DnsAnswer, DnsHeader, DnsMessage, DnsQuestion, Ipv4Address,
    OpCode, QClass, QType, QueryResponse, RecursionAvailability, RecursionDesire, ResponseCode,
    Truncated, Z,
};

const GOLDEN: [u8; 64] = [
    4, 210, 136, 0, 0, 1, 0, 1, 0, 0, 0, 0, 12, 99, 111, 100, 101, 99, 114, 97, 102, 116, 101,
    114, 115, 2, 105, 111, 0, 0, 1, 0, 1, 12, 99, 111, 100, 101, 99, 114, 97, 102, 116, 101, 114,
    115, 2, 105, 111, 0, 0, 1, 0, 1, 0, 0, 0, 60, 0, 4, 8, 8, 8, 8,
];

fn query(flags_a: u8, flags_b: u8) -> Vec<u8> {
    let mut d = vec![4, 210, flags_a, flags_b, 0, 1, 0, 0, 0, 0, 0, 0];
    d.extend_from_slice(&[12]);
    d.extend_from_slice(b"codecrafters");
    d.extend_from_slice(&[2]);
    d.extend_from_slice(b"io");
    d.extend_from_slice(&[0, 0, 1, 0, 1]);
    d
}

#[test]
fn message_impl_test_as_bytes() {
    let header = DnsHeader {
        packet_id: 1234,
        qr: QueryResponse::Reply,
        opcode: OpCode::IQuery,
        aa: AuthoritativeAnswer::NonAuthoritative,
        tc: Truncated::NotTruncated,
        rd: RecursionDesire::NotDesired,
        ra: RecursionAvailability::NotAvailable,
        z: Z::Reserved,
        rcode: ResponseCode::NoErrorCondition,
        qdcount: 1,
        ancount: 1,
        nscount: 0,
        arcount: 0,
    };
    let question = DnsQuestion {
        qname: vec!["codecrafters".to_string(), "io".to_string()],
        qtype: QType::A,
        qclass: QClass::IN,
    };
    let answer = DnsAnswer {
        name: vec!["codecrafters".to_string(), "io".to_string()],
        typ: QType::A,
        class: QClass::IN,
        ttl: 60,
        rdlength: 4,
        rddata: vec![Ipv4Address::new(8, 8, 8, 8)],
    };

    let message = DnsMessage {
        header,
        questions: vec![question],
        answer,
    };
    let bytes = message.as_bytes();

    assert_eq!(bytes, GOLDEN);
}

#[test]
fn response_to_standard_query() {
    let bytes = respond(&query(0x01, 0x00)).unwrap();
    let mut expected = GOLDEN.to_vec();
    expected[2] = 0x81;
    assert_eq!(bytes, expected);
}

#[test]
fn response_to_other_operation_is_not_implemented() {
    // IQuery with the response code bits claiming Refused
    let bytes = respond(&query(0x08, 0x05)).unwrap();
    assert_eq!(bytes.len(), 64);
    assert_eq!(bytes[2], 0x88);
    assert_eq!(bytes[3], 0x04);
    assert_eq!(&bytes[4..], &GOLDEN[4..]);
}

#[test]
fn decoded_message_and_response() {
    let mut m = DnsMessage::from(&query(0x00, 0x00)[..]);
    assert_eq!(m.questions.len(), 1);
    assert_eq!(m.questions[0].qname, vec!["codecrafters".to_string(), "io".to_string()]);
    assert!(m.answer.name.is_empty());
    m.to_response();
    assert_eq!(m.header.qr, QueryResponse::Reply);
    assert_eq!((m.header.qdcount, m.header.ancount, m.header.nscount, m.header.arcount), (1, 1, 0, 0));
    assert_eq!(m.answer.name, m.questions[0].qname);
    assert_eq!(m.answer.ttl, 60);
    assert_eq!(m.answer.rdlength, 4);
    assert_eq!(m.answer.rddata, vec![Ipv4Address::new(8, 8, 8, 8)]);
}

#[test]
fn several_questions_are_read_in_turn() {
    let d = vec![0, 7, 0, 0, 0, 2, 0, 0, 0, 0, 0, 0, 1, b'a', 0, 0, 15, 0, 1, 1, b'b', 0, 0, 16, 0, 3];
    let m = DnsMessage::from(&d[..]);
    assert_eq!(m.questions.len(), 2);
    assert_eq!(m.questions[0].qname, vec!["a".to_string()]);
    assert_eq!(m.questions[0].qtype, QType::MX);
    assert_eq!(m.questions[1].qname, vec!["b".to_string()]);
    assert_eq!(m.questions[1].qtype, QType::TXT);
    assert_eq!(m.questions[1].qclass, QClass::CH);
}

#[test]
fn short_datagram_gets_no_response() {
    assert_eq!(respond(&[0u8; 11]), None);
}

#[test]
fn overlong_label_gets_no_response() {
    let mut d = vec![0, 1, 0, 0, 0, 1, 0, 0, 0, 0, 0, 0, 64];
    d.extend_from_slice(&[b'x'; 64]);
    d.extend_from_slice(&[0, 0, 1, 0, 1]);
    assert_eq!(respond(&d), None);
}

#[test]
fn question_without_header_count_is_dropped() {
    let mut d = query(0x00, 0x00);
    d[5] = 0;
    let bytes = respond(&d).unwrap();
    // header, then an answer for the root name
    assert_eq!(bytes, vec![4, 210, 0x80, 0, 0, 0, 0, 1, 0, 0, 0, 0, 0, 0, 1, 0, 1, 0, 0, 0, 60, 0, 4, 8, 8, 8, 8]);
}
