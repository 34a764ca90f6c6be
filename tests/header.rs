use dns_codec::{
    AuthoritativeAnswer, DnsHeader, OpCode, QueryResponse, RecursionAvailability,
    RecursionDesire, ResponseCode, Truncated, Z,
};

fn empty_header() -> DnsHeader {
    DnsHeader {
        packet_id: 0,
        qr: QueryResponse::Question,
        opcode: OpCode::Query,
        aa: AuthoritativeAnswer::NonAuthoritative,
        tc: Truncated::NotTruncated,
        rd: RecursionDesire::NotDesired,
        ra: RecursionAvailability::NotAvailable,
        z: Z::Reserved,
        rcode: ResponseCode::NoErrorCondition,
        qdcount: 0,
        ancount: 0,
        nscount: 0,
        arcount: 0,
    }
}

fn flag_bytes(h: DnsHeader) -> (u8, u8) {
    let b = h.as_bytes();
    (b[2], b[3])
}

#[test]
fn simple_header_as_bytes_test() {
    let bytes = DnsHeader {
        packet_id: 1234,
        qr: QueryResponse::Question,
        opcode: OpCode::Query,
        aa: AuthoritativeAnswer::NonAuthoritative,
        tc: Truncated::NotTruncated,
        rd: RecursionDesire::NotDesired,
        ra: RecursionAvailability::NotAvailable,
        z: Z::Reserved,
        rcode: ResponseCode::NoErrorCondition,
        qdcount: 1,
        ancount: 1,
        nscount: 0,
        arcount: 0,
    }
    .as_bytes();
    let expected_bytes = vec![
        0b0000_0100,
        0b1101_0010,
        0b0000_0000,
        0b0000_0000,
        0b0000_0000,
        0b0000_0001,
        0b0000_0000,
        0b0000_0001,
        0b0000_0000,
        0b0000_0000,
        0b0000_0000,
        0b0000_0000,
    ];
    assert_eq!(bytes, expected_bytes)
}

#[test]
fn query_response_as_byte_test() {
    assert_eq!(QueryResponse::Question.as_byte(), 0b0000_0000);
    assert_eq!(QueryResponse::Reply.as_byte(), 0b1000_0000);
}

#[test]
fn opcode_as_byte_test() {
    assert_eq!(OpCode::Query.as_byte(), 0b0000_0000);
    assert_eq!(OpCode::IQuery.as_byte(), 0b0000_1000);
    assert_eq!(OpCode::Status.as_byte(), 0b0001_0000);
    assert_eq!(OpCode::Reserved(3).as_byte(), 0b0001_1000);
}

#[test]
fn authoritative_answer_as_byte_test() {
    assert_eq!(AuthoritativeAnswer::NonAuthoritative.as_byte(), 0b0000_0000);
    assert_eq!(AuthoritativeAnswer::Authoritative.as_byte(), 0b0000_0100);
}

#[test]
fn truncated_as_byte_test() {
    assert_eq!(Truncated::NotTruncated.as_byte(), 0b0000_0000);
    assert_eq!(Truncated::Truncated.as_byte(), 0b0000_0010);
}

#[test]
fn recursion_desire_as_byte_test() {
    assert_eq!(RecursionDesire::NotDesired.as_byte(), 0b0000_0000);
    assert_eq!(RecursionDesire::Desired.as_byte(), 0b0000_0001);
}

#[test]
fn recursion_availability_as_byte_test() {
    assert_eq!(RecursionAvailability::NotAvailable.as_byte(), 0b0000_0000);
    assert_eq!(RecursionAvailability::Available.as_byte(), 0b1000_0000);
}

#[test]
fn z_as_byte_test() {
    assert_eq!(Z::Reserved.as_byte(), 0b0000_0000);
}

#[test]
fn response_code_as_byte_test() {
    assert_eq!(ResponseCode::NoErrorCondition.as_byte(), 0b0000_0000);
    assert_eq!(ResponseCode::FormatError.as_byte(), 0b0000_0001);
    assert_eq!(ResponseCode::ServerFailure.as_byte(), 0b0000_0010);
    assert_eq!(ResponseCode::NameError.as_byte(), 0b0000_0011);
    assert_eq!(ResponseCode::NotImplemented.as_byte(), 0b0000_0100);
    assert_eq!(ResponseCode::Refused.as_byte(), 0b0000_0101);
    assert_eq!(ResponseCode::Reserved(6).as_byte(), 0b0000_0110);
}

#[test]
fn minimal_header_reply_iquery_encodes() {
    let h = DnsHeader {
        packet_id: 1234,
        qr: QueryResponse::Reply,
        opcode: OpCode::IQuery,
        ..empty_header()
    };
    assert_eq!(h.as_bytes(), vec![4, 210, 136, 0, 0, 0, 0, 0, 0, 0, 0, 0]);
}

#[test]
fn each_flag_sets_its_own_bit() {
    let e = empty_header();
    assert_eq!(flag_bytes(e), (0x00, 0x00));
    assert_eq!(flag_bytes(DnsHeader { qr: QueryResponse::Reply, ..e }), (0x80, 0x00));
    assert_eq!(flag_bytes(DnsHeader { aa: AuthoritativeAnswer::Authoritative, ..e }), (0x04, 0x00));
    assert_eq!(flag_bytes(DnsHeader { tc: Truncated::Truncated, ..e }), (0x02, 0x00));
    assert_eq!(flag_bytes(DnsHeader { rd: RecursionDesire::Desired, ..e }), (0x01, 0x00));
    assert_eq!(flag_bytes(DnsHeader { ra: RecursionAvailability::Available, ..e }), (0x00, 0x80));
    assert_eq!(flag_bytes(DnsHeader { rcode: ResponseCode::FormatError, ..e }), (0x00, 0x01));
    assert_eq!(flag_bytes(DnsHeader { opcode: OpCode::IQuery, ..e }), (0x08, 0x00));
}

#[test]
fn header_is_always_twelve_octets() {
    let h = DnsHeader {
        packet_id: 0xFFFF,
        qr: QueryResponse::Reply,
        opcode: OpCode::Reserved(15),
        aa: AuthoritativeAnswer::Authoritative,
        tc: Truncated::Truncated,
        rd: RecursionDesire::Desired,
        ra: RecursionAvailability::Available,
        z: Z::Reserved,
        rcode: ResponseCode::Reserved(15),
        qdcount: 0xFFFF,
        ancount: 0xFFFF,
        nscount: 0xFFFF,
        arcount: 0xFFFF,
    };
    let b = h.as_bytes();
    assert_eq!(b.len(), 12);
    assert_eq!(b, vec![0xFF, 0xFF, 0xFF, 0x8F, 0xFF, 0xFF, 0xFF, 0xFF, 0xFF, 0xFF, 0xFF, 0xFF]);
    assert_eq!(empty_header().as_bytes().len(), 12);
}

#[test]
fn header_round_trip_for_standard_query() {
    let h = DnsHeader {
        packet_id: 0xBEEF,
        qr: QueryResponse::Reply,
        opcode: OpCode::Query,
        aa: AuthoritativeAnswer::Authoritative,
        tc: Truncated::NotTruncated,
        rd: RecursionDesire::Desired,
        ra: RecursionAvailability::Available,
        z: Z::Reserved,
        rcode: ResponseCode::Reserved(9),
        qdcount: 2,
        ancount: 300,
        nscount: 4,
        arcount: 5,
    };
    assert_eq!(DnsHeader::from(&h.as_bytes()[..]), h);
}

#[test]
fn non_query_decodes_as_not_implemented() {
    let bytes = [0x12, 0x34, 0x10, 0x03, 0, 1, 0, 0, 0, 0, 0, 0];
    let h = DnsHeader::from(&bytes[..]);
    assert_eq!(h.opcode, OpCode::Status);
    assert_eq!(h.rcode, ResponseCode::NotImplemented);
    let bytes = [0x12, 0x34, 0x00, 0x03, 0, 1, 0, 0, 0, 0, 0, 0];
    assert_eq!(DnsHeader::from(&bytes[..]).rcode, ResponseCode::NameError);
}

#[test]
fn reserved_codes_round_trip() {
    for n in 3u8..=15 {
        assert_eq!(OpCode::from(OpCode::Reserved(n).as_byte()), OpCode::Reserved(n));
    }
    for n in 6u8..=15 {
        assert_eq!(ResponseCode::from(ResponseCode::Reserved(n).as_byte()), ResponseCode::Reserved(n));
    }
}

#[test]
fn single_bit_fields_decode_from_their_bit() {
    assert_eq!(QueryResponse::from(0x80), QueryResponse::Reply);
    assert_eq!(QueryResponse::from(0x7F), QueryResponse::Question);
    assert_eq!(AuthoritativeAnswer::from(0x04), AuthoritativeAnswer::Authoritative);
    assert_eq!(AuthoritativeAnswer::from(0xFB), AuthoritativeAnswer::NonAuthoritative);
    assert_eq!(Truncated::from(0x02), Truncated::Truncated);
    assert_eq!(RecursionDesire::from(0x01), RecursionDesire::Desired);
    assert_eq!(RecursionAvailability::from(0x80), RecursionAvailability::Available);
    assert_eq!(Z::from(0x70), Z::Reserved);
    assert_eq!(OpCode::from(0x10), OpCode::Status);
    assert_eq!(ResponseCode::from(0xF5), ResponseCode::Refused);
}
