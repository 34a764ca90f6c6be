//! Question records: a name, a type and a class.
use vstd::prelude::*;
use crate::resrec::{QClass, QType};
use crate::wire::{
    get_u16, lemma_name_round_trip, lemma_u16_round_trip, name_view, name_wire, parse_labels,
    parse_name, put_name, put_u16, u16_bytes, u16_of, valid_name,
};

verus! {

/// A question as the contracts see it: labels, type and class.
pub type QuestionView = (Seq<Seq<char>>, QType, QClass);

#[derive(Debug, Clone, PartialEq, Eq)]
pub struct DnsQuestion {
    /// The labels of the name asked for, the root last left out.
    pub qname: Vec<String>,
    pub qtype: QType,
    pub qclass: QClass,
}

impl View for DnsQuestion {
    type V = QuestionView;

    open spec fn view(&self) -> QuestionView {
        (name_view(self.qname@), self.qtype, self.qclass)
    }
}

/// A question on the wire: the name, then type and class as 16-bit codes.
pub open spec fn question_wire(q: QuestionView) -> Seq<u8> {
    name_wire(q.0) + u16_bytes(q.1.spec_code()) + u16_bytes(q.2.spec_code())
}

/// The question read from position `i` of `b`, and the position after it.
/// When the name ends with its zero octet and four octets follow, they give
/// type and class; otherwise the question asks for `A` in `IN` and nothing
/// after it can be read.
pub open spec fn question_at(b: Seq<u8>, i: int) -> (QuestionView, int) {
    let p = parse_labels(b, i);
    let e = p.1;
    if p.2 && e + 4 <= b.len() {
        (
            (
                p.0,
                QType::spec_from(u16_of(b[e], b[e + 1])),
                QClass::spec_from(u16_of(b[e + 2], b[e + 3])),
            ),
            e + 4,
        )
    } else {
        ((p.0, QType::A, QClass::IN), b.len() as int)
    }
}

impl DnsQuestion {
    pub fn as_bytes(&self) -> (r: Vec<u8>)
        requires
            valid_name(self@.0),
        ensures
            r@ == question_wire(self@),
    {
        let mut bytes: Vec<u8> = Vec::new();
        put_name(&mut bytes, &self.qname);
        put_u16(&mut bytes, self.qtype.code());
        put_u16(&mut bytes, self.qclass.code());
        assert(bytes@ =~= question_wire(self@));
        bytes
    }

    /// Reads a question from position `start` of `b`; returns it with the
    /// position where the next record begins.
    pub fn parse(b: &[u8], start: usize) -> (r: (DnsQuestion, usize))
        ensures
            (r.0@, r.1 as int) == question_at(b@, start as int),
    {
        let (qname, end, terminated) = parse_name(b, start);
        if terminated && end <= b.len() && b.len() - end >= 4 {
            let qtype = QType::from(get_u16(b, end));
            let qclass = QClass::from(get_u16(b, end + 2));
            (DnsQuestion { qname, qtype, qclass }, end + 4)
        } else {
            (DnsQuestion { qname, qtype: QType::A, qclass: QClass::IN }, b.len())
        }
    }

    /// Reads a question from the start of `val`.
    pub fn from(val: &[u8]) -> (r: DnsQuestion)
        ensures
            r@ == question_at(val@, 0).0,
    {
        DnsQuestion::parse(val, 0).0
    }
}

/// Reading an encoded question with a valid name gives it back, with the
/// position just after it, whatever octets follow.
pub proof fn lemma_question_round_trip(b: Seq<u8>, i: int, q: QuestionView)
    requires
        valid_name(q.0),
        0 <= i,
        i + question_wire(q).len() <= b.len(),
        b.subrange(i, i + question_wire(q).len()) == question_wire(q),
    ensures
        question_at(b, i) == (q, i + question_wire(q).len()),
{
    let w = question_wire(q);
    let nl = name_wire(q.0).len() as int;
    assert(b.subrange(i, i + nl) =~= w.subrange(0, nl));
    assert(w.subrange(0, nl) =~= name_wire(q.0));
    lemma_name_round_trip(b, i, q.0);
    let e = i + nl;
    assert(b[e] == w[nl]);
    assert(b[e + 1] == w[nl + 1]);
    assert(b[e + 2] == w[nl + 2]);
    assert(b[e + 3] == w[nl + 3]);
    lemma_u16_round_trip(q.1.spec_code());
    lemma_u16_round_trip(q.2.spec_code());
    crate::resrec::lemma_qtype_round_trip(q.1);
    crate::resrec::lemma_qclass_round_trip(q.2);
}

} // verus!
