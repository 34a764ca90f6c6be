//! The 12-octet message header and its bit-packed flag fields.
//!
//! ```text
//!                                 1  1  1  1  1  1
//!   0  1  2  3  4  5  6  7  8  9  0  1  2  3  4  5
//! +--+--+--+--+--+--+--+--+--+--+--+--+--+--+--+--+
//! |                      ID                       |
//! +--+--+--+--+--+--+--+--+--+--+--+--+--+--+--+--+
//! |QR|   Opcode  |AA|TC|RD|RA|   Z    |   RCODE   |
//! +--+--+--+--+--+--+--+--+--+--+--+--+--+--+--+--+
//! |                    QDCOUNT                    |
//! +--+--+--+--+--+--+--+--+--+--+--+--+--+--+--+--+
//! |                    ANCOUNT                    |
//! +--+--+--+--+--+--+--+--+--+--+--+--+--+--+--+--+
//! |                    NSCOUNT                    |
//! +--+--+--+--+--+--+--+--+--+--+--+--+--+--+--+--+
//! |                    ARCOUNT                    |
//! +--+--+--+--+--+--+--+--+--+--+--+--+--+--+--+--+
//! ```
use vstd::prelude::*;
use crate::wire::{get_u16, put_u16, u16_bytes, u16_of};

verus! {

/// Octets in an encoded header: six fields of two octets each.
pub const HEADER_SIZE_IN_BYTES: usize = 12;

#[derive(Debug, Clone, Copy, PartialEq, Eq, Structural)]
pub enum QueryResponse {
    /// (0) Question
    Question,
    /// (1) Reply
    Reply,
}

#[derive(Debug, Clone, Copy, PartialEq, Eq, Structural)]
pub enum OpCode {
    /// (0) Standard query
    Query,
    /// (1) Inverse query
    IQuery,
    /// (2) Server status request
    Status,
    /// (3 - 15) reserved for future use
    Reserved(u8),
}

#[derive(Debug, Clone, Copy, PartialEq, Eq, Structural)]
pub enum AuthoritativeAnswer {
    /// (0) Non-authoritative
    NonAuthoritative,
    /// (1) Authoritative
    Authoritative,
}

#[derive(Debug, Clone, Copy, PartialEq, Eq, Structural)]
pub enum Truncated {
    /// (0) Message is not truncated
    NotTruncated,
    /// (1) Message is truncated
    Truncated,
}

#[derive(Debug, Clone, Copy, PartialEq, Eq, Structural)]
pub enum RecursionDesire {
    /// (0) Recursion not desired
    NotDesired,
    /// (1) Recursion desired
    Desired,
}

#[derive(Debug, Clone, Copy, PartialEq, Eq, Structural)]
pub enum RecursionAvailability {
    /// (0) Recursion not available
    NotAvailable,
    /// (1) Recursion available
    Available,
}

#[derive(Debug, Clone, Copy, PartialEq, Eq, Structural)]
pub enum Z {
    /// (0 - 7) Reserved; always written as zero bits
    Reserved,
}

#[derive(Debug, Clone, Copy, PartialEq, Eq, Structural)]
pub enum ResponseCode {
    /// (0) No error condition
    NoErrorCondition,
    /// (1) The name server was unable to interpret the query.
    FormatError,
    /// (2) The name server was unable to process this query due to a problem with the name server.
    ServerFailure,
    /// (3) Meaningful only for responses from an authoritative name server,
    /// this code signifies that the domain name referenced in the query does not exist.
    NameError,
    /// (4) The name server does not support the requested kind of query.
    NotImplemented,
    /// (5) The name server refuses to perform the specified operation for policy reasons.
    Refused,
    /// (6 - 15) reserved for future use
    Reserved(u8),
}

/// A message header. Every field is a plain value, so the struct is its own model.
#[derive(Debug, Clone, Copy, PartialEq, Eq, Structural)]
pub struct DnsHeader {
    /// An ID assigned to query packets. Response packets reply with the same ID.
    pub packet_id: u16,
    /// Whether the message is a query or a response.
    pub qr: QueryResponse,
    /// The kind of query in a message.
    pub opcode: OpCode,
    pub aa: AuthoritativeAnswer,
    /// Whether the message was truncated.
    pub tc: Truncated,
    /// Whether the client wants the server to resolve recursively.
    pub rd: RecursionDesire,
    /// Whether the server supports recursive resolution.
    pub ra: RecursionAvailability,
    /// Reserved for future use.
    pub z: Z,
    /// The status of the response.
    pub rcode: ResponseCode,
    /// Number of questions in the Question section.
    pub qdcount: u16,
    /// Number of records in the Answer section.
    pub ancount: u16,
    /// Number of records in the Authority section.
    pub nscount: u16,
    /// Number of records in the Additional section.
    pub arcount: u16,
}

impl QueryResponse {
    /// The field's contribution to the first flag octet (bit 7).
    pub open spec fn spec_byte(self) -> u8 {
        match self {
            QueryResponse::Question => 0,
            QueryResponse::Reply => 0x80,
        }
    }

    pub open spec fn spec_from(val: u8) -> QueryResponse {
        if val & 0x80 == 0 { QueryResponse::Question } else { QueryResponse::Reply }
    }

    pub fn as_byte(&self) -> (r: u8)
        ensures
            r == self.spec_byte(),
    {
        match self {
            QueryResponse::Question => 0,
            QueryResponse::Reply => 0b1000_0000,
        }
    }

    /// Reads the field from the first flag octet.
    pub fn from(val: u8) -> (r: QueryResponse)
        ensures
            r == QueryResponse::spec_from(val),
    {
        if val & 0b1000_0000 == 0 { QueryResponse::Question } else { QueryResponse::Reply }
    }
}

impl OpCode {
    /// A reserved code lies in 3..=15, the codes that name no operation.
    pub open spec fn wf(self) -> bool {
        match self {
            OpCode::Reserved(n) => 3 <= n <= 15,
            _ => true,
        }
    }

    /// The field's contribution to the first flag octet (bits 3 to 6). Of a
    /// reserved code only the low four bits are kept.
    pub open spec fn spec_byte(self) -> u8 {
        match self {
            OpCode::Query => 0,
            OpCode::IQuery => 0x08,
            OpCode::Status => 0x10,
            OpCode::Reserved(n) => ((n & 0x0F) << 3) as u8,
        }
    }

    pub open spec fn spec_from(val: u8) -> OpCode {
        let v = ((val & 0x78) >> 3) as u8;
        if v == 0 {
            OpCode::Query
        } else if v == 1 {
            OpCode::IQuery
        } else if v == 2 {
            OpCode::Status
        } else {
            OpCode::Reserved(v)
        }
    }

    pub fn as_byte(&self) -> (r: u8)
        ensures
            r == self.spec_byte(),
    {
        match self {
            OpCode::Query => 0,
            OpCode::IQuery => 0b0000_1000,
            OpCode::Status => 0b0001_0000,
            OpCode::Reserved(value) => (*value & 0x0F) << 3,
        }
    }

    /// Reads the field from the first flag octet.
    pub fn from(val: u8) -> (r: OpCode)
        ensures
            r == OpCode::spec_from(val),
            r.wf(),
    {
        let v = (val & 0b0111_1000) >> 3;
        assert(v <= 15) by (bit_vector)
            requires
                v == (val & 0x78) >> 3,
        ;
        if v == 0 {
            OpCode::Query
        } else if v == 1 {
            OpCode::IQuery
        } else if v == 2 {
            OpCode::Status
        } else {
            OpCode::Reserved(v)
        }
    }
}

impl AuthoritativeAnswer {
    /// The field's contribution to the first flag octet (bit 2).
    pub open spec fn spec_byte(self) -> u8 {
        match self {
            AuthoritativeAnswer::NonAuthoritative => 0,
            AuthoritativeAnswer::Authoritative => 0x04,
        }
    }

    pub open spec fn spec_from(val: u8) -> AuthoritativeAnswer {
        if val & 0x04 == 0 {
            AuthoritativeAnswer::NonAuthoritative
        } else {
            AuthoritativeAnswer::Authoritative
        }
    }

    pub fn as_byte(&self) -> (r: u8)
        ensures
            r == self.spec_byte(),
    {
        match self {
            AuthoritativeAnswer::NonAuthoritative => 0,
            AuthoritativeAnswer::Authoritative => 0b0000_0100,
        }
    }

    /// Reads the field from the first flag octet.
    pub fn from(val: u8) -> (r: AuthoritativeAnswer)
        ensures
            r == AuthoritativeAnswer::spec_from(val),
    {
        if val & 0b0000_0100 == 0 {
            AuthoritativeAnswer::NonAuthoritative
        } else {
            AuthoritativeAnswer::Authoritative
        }
    }
}

impl Truncated {
    /// The field's contribution to the first flag octet (bit 1).
    pub open spec fn spec_byte(self) -> u8 {
        match self {
            Truncated::NotTruncated => 0,
            Truncated::Truncated => 0x02,
        }
    }

    pub open spec fn spec_from(val: u8) -> Truncated {
        if val & 0x02 == 0 { Truncated::NotTruncated } else { Truncated::Truncated }
    }

    pub fn as_byte(&self) -> (r: u8)
        ensures
            r == self.spec_byte(),
    {
        match self {
            Truncated::NotTruncated => 0,
            Truncated::Truncated => 0b0000_0010,
        }
    }

    /// Reads the field from the first flag octet.
    pub fn from(val: u8) -> (r: Truncated)
        ensures
            r == Truncated::spec_from(val),
    {
        if val & 0b0000_0010 == 0 { Truncated::NotTruncated } else { Truncated::Truncated }
    }
}

impl RecursionDesire {
    /// The field's contribution to the first flag octet (bit 0).
    pub open spec fn spec_byte(self) -> u8 {
        match self {
            RecursionDesire::NotDesired => 0,
            RecursionDesire::Desired => 0x01,
        }
    }

    pub open spec fn spec_from(val: u8) -> RecursionDesire {
        if val & 0x01 == 0 { RecursionDesire::NotDesired } else { RecursionDesire::Desired }
    }

    pub fn as_byte(&self) -> (r: u8)
        ensures
            r == self.spec_byte(),
    {
        match self {
            RecursionDesire::NotDesired => 0,
            RecursionDesire::Desired => 0b0000_0001,
        }
    }

    /// Reads the field from the first flag octet.
    pub fn from(val: u8) -> (r: RecursionDesire)
        ensures
            r == RecursionDesire::spec_from(val),
    {
        if val & 0b0000_0001 == 0 { RecursionDesire::NotDesired } else { RecursionDesire::Desired }
    }
}

impl RecursionAvailability {
    /// The field's contribution to the second flag octet (bit 7).
    pub open spec fn spec_byte(self) -> u8 {
        match self {
            RecursionAvailability::NotAvailable => 0,
            RecursionAvailability::Available => 0x80,
        }
    }

    pub open spec fn spec_from(val: u8) -> RecursionAvailability {
        if val & 0x80 == 0 {
            RecursionAvailability::NotAvailable
        } else {
            RecursionAvailability::Available
        }
    }

    pub fn as_byte(&self) -> (r: u8)
        ensures
            r == self.spec_byte(),
    {
        match self {
            RecursionAvailability::NotAvailable => 0,
            RecursionAvailability::Available => 0b1000_0000,
        }
    }

    /// Reads the field from the second flag octet.
    pub fn from(val: u8) -> (r: RecursionAvailability)
        ensures
            r == RecursionAvailability::spec_from(val),
    {
        if val & 0b1000_0000 == 0 {
            RecursionAvailability::NotAvailable
        } else {
            RecursionAvailability::Available
        }
    }
}

impl Z {
    /// The field's contribution to the second flag octet: always three zero bits.
    pub fn as_byte(&self) -> (r: u8)
        ensures
            r == 0,
    {
        0
    }

    /// Reads the field from the second flag octet: whatever its bits, it is `Reserved`.
    pub fn from(val: u8) -> (r: Z)
        ensures
            r == Z::Reserved,
    {
        Z::Reserved
    }
}

impl ResponseCode {
    /// A reserved code lies in 6..=15, the codes that name no status.
    pub open spec fn wf(self) -> bool {
        match self {
            ResponseCode::Reserved(n) => 6 <= n <= 15,
            _ => true,
        }
    }

    /// The field's contribution to the second flag octet (bits 0 to 3). Of a
    /// reserved code only the low four bits are kept.
    pub open spec fn spec_byte(self) -> u8 {
        match self {
            ResponseCode::NoErrorCondition => 0,
            ResponseCode::FormatError => 1,
            ResponseCode::ServerFailure => 2,
            ResponseCode::NameError => 3,
            ResponseCode::NotImplemented => 4,
            ResponseCode::Refused => 5,
            ResponseCode::Reserved(n) => n & 0x0F,
        }
    }

    pub open spec fn spec_from(val: u8) -> ResponseCode {
        let v = val & 0x0F;
        if v == 0 {
            ResponseCode::NoErrorCondition
        } else if v == 1 {
            ResponseCode::FormatError
        } else if v == 2 {
            ResponseCode::ServerFailure
        } else if v == 3 {
            ResponseCode::NameError
        } else if v == 4 {
            ResponseCode::NotImplemented
        } else if v == 5 {
            ResponseCode::Refused
        } else {
            ResponseCode::Reserved(v)
        }
    }

    pub fn as_byte(&self) -> (r: u8)
        ensures
            r == self.spec_byte(),
    {
        match self {
            ResponseCode::NoErrorCondition => 0,
            ResponseCode::FormatError => 1,
            ResponseCode::ServerFailure => 2,
            ResponseCode::NameError => 3,
            ResponseCode::NotImplemented => 4,
            ResponseCode::Refused => 5,
            ResponseCode::Reserved(value) => *value & 0x0F,
        }
    }

    /// Reads the field from the second flag octet.
    pub fn from(val: u8) -> (r: ResponseCode)
        ensures
            r == ResponseCode::spec_from(val),
            r.wf(),
    {
        let v = val & 0b0000_1111;
        assert(v <= 15) by (bit_vector)
            requires
                v == val & 0x0F,
        ;
        if v == 0 {
            ResponseCode::NoErrorCondition
        } else if v == 1 {
            ResponseCode::FormatError
        } else if v == 2 {
            ResponseCode::ServerFailure
        } else if v == 3 {
            ResponseCode::NameError
        } else if v == 4 {
            ResponseCode::NotImplemented
        } else if v == 5 {
            ResponseCode::Refused
        } else {
            ResponseCode::Reserved(v)
        }
    }
}

impl DnsHeader {
    /// Reserved operation and response codes lie in their reserved ranges.
    pub open spec fn wf(self) -> bool {
        self.opcode.wf() && self.rcode.wf()
    }

    /// The first flag octet: QR, OPCODE, AA, TC and RD.
    pub open spec fn spec_flags_a(self) -> u8 {
        self.qr.spec_byte() | self.opcode.spec_byte() | self.aa.spec_byte() | self.tc.spec_byte()
            | self.rd.spec_byte()
    }

    /// The second flag octet: RA, Z (zero bits) and RCODE.
    pub open spec fn spec_flags_b(self) -> u8 {
        self.ra.spec_byte() | 0u8 | self.rcode.spec_byte()
    }

    /// The header on the wire.
    pub open spec fn spec_bytes(self) -> Seq<u8> {
        u16_bytes(self.packet_id) + seq![self.spec_flags_a(), self.spec_flags_b()] + u16_bytes(
            self.qdcount,
        ) + u16_bytes(self.ancount) + u16_bytes(self.nscount) + u16_bytes(self.arcount)
    }

    /// The header read from the first twelve octets of `b`. Any operation
    /// other than a standard query gets the response code `NotImplemented`,
    /// whatever the bits say.
    pub open spec fn spec_from(b: Seq<u8>) -> DnsHeader {
        let opcode = OpCode::spec_from(b[2]);
        DnsHeader {
            packet_id: u16_of(b[0], b[1]),
            qr: QueryResponse::spec_from(b[2]),
            opcode,
            aa: AuthoritativeAnswer::spec_from(b[2]),
            tc: Truncated::spec_from(b[2]),
            rd: RecursionDesire::spec_from(b[2]),
            ra: RecursionAvailability::spec_from(b[3]),
            z: Z::Reserved,
            rcode: if opcode == OpCode::Query {
                ResponseCode::spec_from(b[3])
            } else {
                ResponseCode::NotImplemented
            },
            qdcount: u16_of(b[4], b[5]),
            ancount: u16_of(b[6], b[7]),
            nscount: u16_of(b[8], b[9]),
            arcount: u16_of(b[10], b[11]),
        }
    }

    pub fn as_bytes(&self) -> (r: Vec<u8>)
        ensures
            r@ == self.spec_bytes(),
            r@.len() == HEADER_SIZE_IN_BYTES,
    {
        let mut bytes: Vec<u8> = Vec::with_capacity(HEADER_SIZE_IN_BYTES);
        put_u16(&mut bytes, self.packet_id);
        let left_meta = self.qr.as_byte() | self.opcode.as_byte() | self.aa.as_byte()
            | self.tc.as_byte() | self.rd.as_byte();
        bytes.push(left_meta);
        let right_meta = self.ra.as_byte() | self.z.as_byte() | self.rcode.as_byte();
        bytes.push(right_meta);
        put_u16(&mut bytes, self.qdcount);
        put_u16(&mut bytes, self.ancount);
        put_u16(&mut bytes, self.nscount);
        put_u16(&mut bytes, self.arcount);
        assert(bytes@ =~= self.spec_bytes());
        bytes
    }

    /// Reads a header from the first twelve octets of `val`.
    pub fn from(val: &[u8]) -> (r: DnsHeader)
        requires
            val@.len() >= HEADER_SIZE_IN_BYTES,
        ensures
            r == DnsHeader::spec_from(val@),
            r.wf(),
    {
        let packet_id = get_u16(val, 0);
        let left_meta = val[2];
        let right_meta = val[3];
        let qdcount = get_u16(val, 4);
        let ancount = get_u16(val, 6);
        let nscount = get_u16(val, 8);
        let arcount = get_u16(val, 10);

        let qr = QueryResponse::from(left_meta);
        let opcode = OpCode::from(left_meta);
        let aa = AuthoritativeAnswer::from(left_meta);
        let tc = Truncated::from(left_meta);
        let rd = RecursionDesire::from(left_meta);

        let ra = RecursionAvailability::from(right_meta);
        let z = Z::from(right_meta);

        let rcode = match opcode {
            OpCode::Query => ResponseCode::from(right_meta),
            _ => ResponseCode::NotImplemented,
        };

        DnsHeader {
            packet_id,
            qr,
            opcode,
            aa,
            tc,
            rd,
            ra,
            z,
            rcode,
            qdcount,
            ancount,
            nscount,
            arcount,
        }
    }
}

proof fn lemma_unpack_flags_a(q: u8, op: u8, aa: u8, tc: u8, rd: u8)
    requires
        q & 0x7F == 0,
        op & 0x87 == 0,
        aa & 0xFB == 0,
        tc & 0xFD == 0,
        rd & 0xFE == 0,
    ensures
        (q | op | aa | tc | rd) & 0x80 == q,
        (q | op | aa | tc | rd) & 0x78 == op,
        (q | op | aa | tc | rd) & 0x04 == aa,
        (q | op | aa | tc | rd) & 0x02 == tc,
        (q | op | aa | tc | rd) & 0x01 == rd,
{
    assert((q | op | aa | tc | rd) & 0x80 == q) by (bit_vector)
        requires
            q & 0x7F == 0,
            op & 0x87 == 0,
            aa & 0xFB == 0,
            tc & 0xFD == 0,
            rd & 0xFE == 0,
    ;
    assert((q | op | aa | tc | rd) & 0x78 == op) by (bit_vector)
        requires
            q & 0x7F == 0,
            op & 0x87 == 0,
            aa & 0xFB == 0,
            tc & 0xFD == 0,
            rd & 0xFE == 0,
    ;
    assert((q | op | aa | tc | rd) & 0x04 == aa) by (bit_vector)
        requires
            q & 0x7F == 0,
            op & 0x87 == 0,
            aa & 0xFB == 0,
            tc & 0xFD == 0,
            rd & 0xFE == 0,
    ;
    assert((q | op | aa | tc | rd) & 0x02 == tc) by (bit_vector)
        requires
            q & 0x7F == 0,
            op & 0x87 == 0,
            aa & 0xFB == 0,
            tc & 0xFD == 0,
            rd & 0xFE == 0,
    ;
    assert((q | op | aa | tc | rd) & 0x01 == rd) by (bit_vector)
        requires
            q & 0x7F == 0,
            op & 0x87 == 0,
            aa & 0xFB == 0,
            tc & 0xFD == 0,
            rd & 0xFE == 0,
    ;
}

proof fn lemma_unpack_flags_b(ra: u8, rc: u8)
    requires
        ra & 0x7F == 0,
        rc & 0xF0 == 0,
    ensures
        (ra | 0u8 | rc) & 0x80 == ra,
        (ra | 0u8 | rc) & 0x0F == rc,
{
    assert((ra | 0u8 | rc) & 0x80 == ra && (ra | 0u8 | rc) & 0x0F == rc) by (bit_vector)
        requires
            ra & 0x7F == 0,
            rc & 0xF0 == 0,
    ;
}

proof fn lemma_opcode_bits(op: OpCode)
    ensures
        op.spec_byte() & 0x87 == 0,
        op.spec_byte() & 0x78 == op.spec_byte(),
        op.wf() ==> OpCode::spec_from(op.spec_byte()) == op,
{
    match op {
        OpCode::Query => {
            assert(0u8 & 0x87 == 0 && ((0u8 & 0x78) >> 3) == 0) by (bit_vector);
        },
        OpCode::IQuery => {
            assert(0x08u8 & 0x87 == 0 && ((0x08u8 & 0x78) >> 3) == 1) by (bit_vector);
        },
        OpCode::Status => {
            assert(0x10u8 & 0x87 == 0 && ((0x10u8 & 0x78) >> 3) == 2) by (bit_vector);
        },
        OpCode::Reserved(n) => {
            let b = ((n & 0x0F) << 3) as u8;
            assert(b & 0x87 == 0) by (bit_vector)
                requires
                    b == ((n & 0x0F) << 3) as u8,
            ;
            assert(n <= 15 ==> ((b & 0x78) >> 3) == n) by (bit_vector)
                requires
                    b == ((n & 0x0F) << 3) as u8,
            ;
        },
    }
    let b = op.spec_byte();
    assert(b & 0x87 == 0 ==> b & 0x78 == b) by (bit_vector);
}

proof fn lemma_rcode_bits(rc: ResponseCode)
    ensures
        rc.spec_byte() & 0xF0 == 0,
        rc.spec_byte() & 0x0F == rc.spec_byte(),
        rc.wf() ==> ResponseCode::spec_from(rc.spec_byte()) == rc,
{
    let b = rc.spec_byte();
    match rc {
        ResponseCode::Reserved(n) => {
            assert(b == n & 0x0F ==> b & 0xF0 == 0 && (n <= 15 ==> b & 0x0F == n)) by (bit_vector);
        },
        _ => {
            assert(b <= 5 ==> b & 0xF0 == 0 && b & 0x0F == b) by (bit_vector);
        },
    }
    assert(b & 0xF0 == 0 ==> b & 0x0F == b) by (bit_vector);
}

/// Decoding an encoded header gives it back, for a header with reserved codes
/// in their ranges and a standard query operation (any other operation has its
/// response code replaced by `NotImplemented` on decode).
pub proof fn lemma_header_round_trip(h: DnsHeader)
    requires
        h.wf(),
        h.opcode == OpCode::Query,
    ensures
        DnsHeader::spec_from(h.spec_bytes()) == h,
{
    let b = h.spec_bytes();
    lemma_opcode_bits(h.opcode);
    lemma_rcode_bits(h.rcode);
    assert(0x80u8 & 0x7F == 0 && 0u8 & 0x7F == 0 && 0x04u8 & 0xFB == 0 && 0u8 & 0xFB == 0
        && 0x02u8 & 0xFD == 0 && 0u8 & 0xFD == 0 && 0x01u8 & 0xFE == 0 && 0u8 & 0xFE == 0)
        by (bit_vector);
    lemma_unpack_flags_a(
        h.qr.spec_byte(),
        h.opcode.spec_byte(),
        h.aa.spec_byte(),
        h.tc.spec_byte(),
        h.rd.spec_byte(),
    );
    lemma_unpack_flags_b(h.ra.spec_byte(), h.rcode.spec_byte());
    assert(b[2] == h.spec_flags_a());
    assert(b[3] == h.spec_flags_b());
    assert(OpCode::spec_from(b[2]) == OpCode::spec_from(h.opcode.spec_byte()));
    assert(ResponseCode::spec_from(b[3]) == ResponseCode::spec_from(h.rcode.spec_byte()));
    assert(DnsHeader::spec_from(b) =~= h);
}

/// Every decoded operation code other than a standard query turns the decoded
/// response code into `NotImplemented`.
pub proof fn lemma_non_query_not_implemented(b: Seq<u8>)
    requires
        b.len() >= HEADER_SIZE_IN_BYTES,
        DnsHeader::spec_from(b).opcode != OpCode::Query,
    ensures
        DnsHeader::spec_from(b).rcode == ResponseCode::NotImplemented,
{
}

/// Decoding the encoding of a valid operation code gives it back.
pub proof fn lemma_opcode_round_trip(op: OpCode)
    requires
        op.wf(),
    ensures
        OpCode::spec_from(op.spec_byte()) == op,
{
    lemma_opcode_bits(op);
}

/// Decoding the encoding of a valid response code gives it back.
pub proof fn lemma_rcode_round_trip(rc: ResponseCode)
    requires
        rc.wf(),
    ensures
        ResponseCode::spec_from(rc.spec_byte()) == rc,
{
    lemma_rcode_bits(rc);
}

} // verus!
