//! Answer records: a resource record whose data are IPv4 addresses.
//!
//! ```text
//! NAME | TYPE (16) | CLASS (16) | TTL (32) | RDLENGTH (16) | RDATA
//! ```
use vstd::prelude::*;
use crate::resrec::{QClass, QType};
use crate::wire::{i32_bytes, name_view, name_wire, put_i32, put_name, put_u16, u16_bytes, valid_name};

verus! {

/// An IPv4 address as its four octets, in network order.
#[derive(Debug, Clone, Copy, PartialEq, Eq, Structural)]
pub struct Ipv4Address(pub u8, pub u8, pub u8, pub u8);

impl Ipv4Address {
    pub fn new(a: u8, b: u8, c: u8, d: u8) -> (r: Ipv4Address)
        ensures
            r == Ipv4Address(a, b, c, d),
    {
        Ipv4Address(a, b, c, d)
    }

    /// The four octets, in network order.
    pub open spec fn spec_octets(self) -> Seq<u8> {
        seq![self.0, self.1, self.2, self.3]
    }
}

/// An answer as the contracts see it: labels, type, class, TTL, RDLENGTH and
/// the addresses of RDATA.
pub type AnswerView = (Seq<Seq<char>>, QType, QClass, i32, u16, Seq<Ipv4Address>);

#[derive(Debug, Clone, PartialEq, Eq)]
pub struct DnsAnswer {
    /// The owner name: the node to which this record pertains.
    pub name: Vec<String>,
    pub typ: QType,
    pub class: QClass,
    /// How long, in seconds, the record may be cached.
    pub ttl: i32,
    /// The length in octets of RDATA.
    pub rdlength: u16,
    /// The addresses that make up RDATA.
    pub rddata: Vec<Ipv4Address>,
}

impl View for DnsAnswer {
    type V = AnswerView;

    open spec fn view(&self) -> AnswerView {
        (name_view(self.name@), self.typ, self.class, self.ttl, self.rdlength, self.rddata@)
    }
}

/// RDATA on the wire: the octets of each address in turn.
pub open spec fn rdata_wire(addrs: Seq<Ipv4Address>) -> Seq<u8>
    decreases addrs.len(),
{
    if addrs.len() == 0 {
        seq![]
    } else {
        rdata_wire(addrs.drop_last()) + addrs.last().spec_octets()
    }
}

/// An answer on the wire.
pub open spec fn answer_wire(a: AnswerView) -> Seq<u8> {
    name_wire(a.0) + u16_bytes(a.1.spec_code()) + u16_bytes(a.2.spec_code()) + i32_bytes(a.3)
        + u16_bytes(a.4) + rdata_wire(a.5)
}

impl DnsAnswer {
    pub fn as_bytes(&self) -> (r: Vec<u8>)
        requires
            valid_name(self@.0),
        ensures
            r@ == answer_wire(self@),
    {
        let mut bytes: Vec<u8> = Vec::new();
        put_name(&mut bytes, &self.name);
        put_u16(&mut bytes, self.typ.code());
        put_u16(&mut bytes, self.class.code());
        put_i32(&mut bytes, self.ttl);
        put_u16(&mut bytes, self.rdlength);
        let ghost head = bytes@;
        let mut i: usize = 0;
        while i < self.rddata.len()
            invariant
                i <= self.rddata@.len(),
                bytes@ == head + rdata_wire(self.rddata@.take(i as int)),
            decreases self.rddata@.len() - i,
        {
            let addr = self.rddata[i];
            bytes.push(addr.0);
            bytes.push(addr.1);
            bytes.push(addr.2);
            bytes.push(addr.3);
            proof {
                let t = self.rddata@.take(i + 1);
                assert(t.drop_last() =~= self.rddata@.take(i as int));
                assert(bytes@ =~= head + rdata_wire(t));
            }
            i = i + 1;
        }
        assert(self.rddata@.take(self.rddata@.len() as int) =~= self.rddata@);
        assert(bytes@ =~= answer_wire(self@));
        bytes
    }
}

} // verus!
