//! Record type and class codes (RFC 1035, 3.2.2 to 3.2.5).
use vstd::prelude::*;

verus! {

/// The type of a resource record, or of what a question asks for.
#[derive(Debug, Clone, Copy, PartialEq, Eq, Structural)]
pub enum QType {
    /// a host address
    A,
    /// an authoritative name server
    NS,
    /// a mail destination (Obsolete - use MX)
    MD,
    /// a mail forwarder (Obsolete - use MX)
    MF,
    /// the canonical name for an alias
    CNAME,
    /// marks the start of a zone of authority
    SOA,
    /// a mailbox domain name (EXPERIMENTAL)
    MB,
    /// a mail group member (EXPERIMENTAL)
    MG,
    /// a mail rename domain name (EXPERIMENTAL)
    MR,
    /// a null RR (EXPERIMENTAL)
    NULL,
    /// a well known service description
    WKS,
    /// a domain name pointer
    PTR,
    /// host information
    HINFO,
    /// mailbox or mail list information
    MINFO,
    /// mail exchange
    MX,
    /// text strings
    TXT,
    /// A request for a transfer of an entire zone
    AXFR,
    /// A request for mailbox-related records (MB, MG or MR)
    MAILB,
    /// A request for mail agent RRs (Obsolete - see MX)
    MAILA,
    /// A request for all records
    WildCard,
}

/// The class of a resource record, or of what a question asks for.
#[derive(Debug, Clone, Copy, PartialEq, Eq, Structural)]
pub enum QClass {
    /// the Internet
    IN,
    /// the CSNET class (Obsolete - used only for examples in some obsolete RFCs)
    CS,
    /// the CHAOS class
    CH,
    /// Hesiod [Dyer 87]
    HS,
    /// any class
    WildCard,
}

impl QType {
    /// The numeric code of the type on the wire.
    pub open spec fn spec_code(self) -> u16 {
        match self {
            QType::A => 1,
            QType::NS => 2,
            QType::MD => 3,
            QType::MF => 4,
            QType::CNAME => 5,
            QType::SOA => 6,
            QType::MB => 7,
            QType::MG => 8,
            QType::MR => 9,
            QType::NULL => 10,
            QType::WKS => 11,
            QType::PTR => 12,
            QType::HINFO => 13,
            QType::MINFO => 14,
            QType::MX => 15,
            QType::TXT => 16,
            QType::AXFR => 252,
            QType::MAILB => 253,
            QType::MAILA => 254,
            QType::WildCard => 255,
        }
    }

    /// The type with the given code; a code that names no type stands for `WildCard`.
    pub open spec fn spec_from(code: u16) -> QType {
        match code {
            1 => QType::A,
            2 => QType::NS,
            3 => QType::MD,
            4 => QType::MF,
            5 => QType::CNAME,
            6 => QType::SOA,
            7 => QType::MB,
            8 => QType::MG,
            9 => QType::MR,
            10 => QType::NULL,
            11 => QType::WKS,
            12 => QType::PTR,
            13 => QType::HINFO,
            14 => QType::MINFO,
            15 => QType::MX,
            16 => QType::TXT,
            252 => QType::AXFR,
            253 => QType::MAILB,
            254 => QType::MAILA,
            _ => QType::WildCard,
        }
    }

    pub fn code(&self) -> (r: u16)
        ensures
            r == self.spec_code(),
    {
        match self {
            QType::A => 1,
            QType::NS => 2,
            QType::MD => 3,
            QType::MF => 4,
            QType::CNAME => 5,
            QType::SOA => 6,
            QType::MB => 7,
            QType::MG => 8,
            QType::MR => 9,
            QType::NULL => 10,
            QType::WKS => 11,
            QType::PTR => 12,
            QType::HINFO => 13,
            QType::MINFO => 14,
            QType::MX => 15,
            QType::TXT => 16,
            QType::AXFR => 252,
            QType::MAILB => 253,
            QType::MAILA => 254,
            QType::WildCard => 255,
        }
    }

    pub fn from(val: u16) -> (r: QType)
        ensures
            r == QType::spec_from(val),
    {
        match val {
            1 => QType::A,
            2 => QType::NS,
            3 => QType::MD,
            4 => QType::MF,
            5 => QType::CNAME,
            6 => QType::SOA,
            7 => QType::MB,
            8 => QType::MG,
            9 => QType::MR,
            10 => QType::NULL,
            11 => QType::WKS,
            12 => QType::PTR,
            13 => QType::HINFO,
            14 => QType::MINFO,
            15 => QType::MX,
            16 => QType::TXT,
            252 => QType::AXFR,
            253 => QType::MAILB,
            254 => QType::MAILA,
            _ => QType::WildCard,
        }
    }
}

impl QClass {
    /// The numeric code of the class on the wire.
    pub open spec fn spec_code(self) -> u16 {
        match self {
            QClass::IN => 1,
            QClass::CS => 2,
            QClass::CH => 3,
            QClass::HS => 4,
            QClass::WildCard => 255,
        }
    }

    /// The class with the given code; a code that names no class stands for `WildCard`.
    pub open spec fn spec_from(code: u16) -> QClass {
        match code {
            1 => QClass::IN,
            2 => QClass::CS,
            3 => QClass::CH,
            4 => QClass::HS,
            _ => QClass::WildCard,
        }
    }

    pub fn code(&self) -> (r: u16)
        ensures
            r == self.spec_code(),
    {
        match self {
            QClass::IN => 1,
            QClass::CS => 2,
            QClass::CH => 3,
            QClass::HS => 4,
            QClass::WildCard => 255,
        }
    }

    pub fn from(val: u16) -> (r: QClass)
        ensures
            r == QClass::spec_from(val),
    {
        match val {
            1 => QClass::IN,
            2 => QClass::CS,
            3 => QClass::CH,
            4 => QClass::HS,
            _ => QClass::WildCard,
        }
    }
}

/// Decoding the code of a type gives the type back.
pub proof fn lemma_qtype_round_trip(t: QType)
    ensures
        QType::spec_from(t.spec_code()) == t,
{
}

/// Decoding the code of a class gives the class back.
pub proof fn lemma_qclass_round_trip(c: QClass)
    ensures
        QClass::spec_from(c.spec_code()) == c,
{
}

} // verus!
