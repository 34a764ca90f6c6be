//! Whole messages: a header, its questions and one answer; and the response
//! that the responder makes of a query.
use vstd::prelude::*;
use crate::answer::{answer_wire, AnswerView, DnsAnswer, Ipv4Address};
use crate::header::{DnsHeader, QueryResponse, HEADER_SIZE_IN_BYTES};
use crate::question::{question_at, question_wire, DnsQuestion, QuestionView};
use crate::resrec::{QClass, QType};
use crate::wire::{is_valid_name, valid_name};

verus! {

/// The TTL, in seconds, of the answer that a response carries.
pub const RESPONSE_TTL: i32 = 60;

/// A message as the contracts see it: header, questions and answer.
pub type MessageView = (DnsHeader, Seq<QuestionView>, AnswerView);

#[derive(Debug, Clone, PartialEq, Eq)]
pub struct DnsMessage {
    pub header: DnsHeader,
    pub questions: Vec<DnsQuestion>,
    pub answer: DnsAnswer,
}

impl View for DnsMessage {
    type V = MessageView;

    open spec fn view(&self) -> MessageView {
        (self.header, self.questions@.map_values(|q: DnsQuestion| q@), self.answer@)
    }
}

/// The questions on the wire, one after another.
pub open spec fn questions_wire(qs: Seq<QuestionView>) -> Seq<u8>
    decreases qs.len(),
{
    if qs.len() == 0 {
        seq![]
    } else {
        questions_wire(qs.drop_last()) + question_wire(qs.last())
    }
}

/// A message on the wire: header, questions, answer.
pub open spec fn message_wire(m: MessageView) -> Seq<u8> {
    m.0.spec_bytes() + questions_wire(m.1) + answer_wire(m.2)
}

/// Every name in the message has valid labels, so that it can be encoded.
pub open spec fn valid_message(m: MessageView) -> bool {
    &&& forall|i: int| 0 <= i < m.1.len() ==> valid_name(#[trigger] m.1[i].0)
    &&& valid_name(m.2.0)
}

/// `count` questions read one after another from position `i` of `b`.
pub open spec fn questions_from(b: Seq<u8>, i: int, count: nat) -> Seq<QuestionView>
    decreases count,
{
    if count == 0 {
        seq![]
    } else {
        let (q, next) = question_at(b, i);
        seq![q] + questions_from(b, next, (count - 1) as nat)
    }
}

/// The answer of a message read from the wire: inbound answers are not read.
pub open spec fn empty_answer() -> AnswerView {
    (seq![], QType::A, QClass::IN, 0, 0, seq![])
}

/// The message read from `b`: the header from its first twelve octets, then
/// as many questions as the header counts.
pub open spec fn message_from(b: Seq<u8>) -> MessageView {
    let h = DnsHeader::spec_from(b);
    (h, questions_from(b, HEADER_SIZE_IN_BYTES as int, h.qdcount as nat), empty_answer())
}

/// The answer of a response: an A record in IN for the first question's name
/// (the root when there is none), with TTL 60 and the address 8.8.8.8.
pub open spec fn response_answer(qs: Seq<QuestionView>) -> AnswerView {
    (
        if qs.len() > 0 { qs[0].0 } else { seq![] },
        QType::A,
        QClass::IN,
        RESPONSE_TTL,
        4,
        seq![Ipv4Address(8, 8, 8, 8)],
    )
}

/// The response made of message `m`: QR set to Reply, the counts set to the
/// questions kept and one answer, and the fabricated answer.
pub open spec fn response_of(m: MessageView) -> MessageView {
    let h = m.0;
    (
        DnsHeader {
            packet_id: h.packet_id,
            qr: QueryResponse::Reply,
            opcode: h.opcode,
            aa: h.aa,
            tc: h.tc,
            rd: h.rd,
            ra: h.ra,
            z: h.z,
            rcode: h.rcode,
            qdcount: m.1.len() as u16,
            ancount: 1,
            nscount: 0,
            arcount: 0,
        },
        m.1,
        response_answer(m.1),
    )
}

impl DnsMessage {
    pub fn as_bytes(&self) -> (r: Vec<u8>)
        requires
            valid_message(self@),
        ensures
            r@ == message_wire(self@),
    {
        let ghost qs = self@.1;
        let mut bytes = self.header.as_bytes();
        let ghost head = bytes@;
        let mut i: usize = 0;
        while i < self.questions.len()
            invariant
                i <= self.questions@.len(),
                qs == self@.1,
                valid_message(self@),
                bytes@ == head + questions_wire(qs.take(i as int)),
            decreases self.questions@.len() - i,
        {
            assert(qs[i as int] == self.questions@[i as int]@);
            let mut q = self.questions[i].as_bytes();
            bytes.append(&mut q);
            proof {
                assert(qs.take(i + 1).drop_last() =~= qs.take(i as int));
                assert(qs.take(i + 1).last() == qs[i as int]);
                assert(bytes@ =~= head + questions_wire(qs.take(i + 1)));
            }
            i = i + 1;
        }
        let mut a = self.answer.as_bytes();
        bytes.append(&mut a);
        assert(qs.take(qs.len() as int) =~= qs);
        assert(bytes@ =~= message_wire(self@));
        bytes
    }

    /// Checks that every name in the message can be encoded.
    pub fn is_valid(&self) -> (r: bool)
        ensures
            r == valid_message(self@),
    {
        let ghost qs = self@.1;
        let mut i: usize = 0;
        while i < self.questions.len()
            invariant
                i <= self.questions@.len(),
                qs == self@.1,
                forall|j: int| 0 <= j < i ==> valid_name(#[trigger] qs[j].0),
            decreases self.questions@.len() - i,
        {
            assert(qs[i as int] == self.questions@[i as int]@);
            if !is_valid_name(&self.questions[i].qname) {
                assert(!valid_name(qs[i as int].0));
                return false;
            }
            i = i + 1;
        }
        is_valid_name(&self.answer.name)
    }

    /// Reads a message: the header from the first twelve octets of `val`, then
    /// the questions it counts, each from where the one before ended.
    pub fn from(val: &[u8]) -> (r: DnsMessage)
        requires
            val@.len() >= HEADER_SIZE_IN_BYTES,
        ensures
            r@ == message_from(val@),
            r.header.wf(),
            r.questions@.len() == r.header.qdcount,
    {
        let header = DnsHeader::from(val);
        let ghost all = questions_from(val@, HEADER_SIZE_IN_BYTES as int, header.qdcount as nat);
        let mut questions: Vec<DnsQuestion> = Vec::new();
        let mut pos: usize = HEADER_SIZE_IN_BYTES;
        let mut k: u16 = 0;
        while k < header.qdcount
            invariant
                k <= header.qdcount,
                questions@.len() == k,
                all == questions_from(val@, HEADER_SIZE_IN_BYTES as int, header.qdcount as nat),
                questions@.map_values(|q: DnsQuestion| q@) + questions_from(
                    val@,
                    pos as int,
                    (header.qdcount - k) as nat,
                ) == all,
            decreases header.qdcount - k,
        {
            let ghost before = questions@;
            let (q, next) = DnsQuestion::parse(val, pos);
            questions.push(q);
            proof {
                let rest = questions_from(val@, next as int, (header.qdcount - k - 1) as nat);
                assert(questions_from(val@, pos as int, (header.qdcount - k) as nat) == seq![q@]
                    + rest);
                assert(questions@.map_values(|q: DnsQuestion| q@) =~= before.map_values(
                    |q: DnsQuestion| q@,
                ).push(q@));
                assert(questions@.map_values(|q: DnsQuestion| q@) + rest =~= before.map_values(
                    |q: DnsQuestion| q@,
                ) + (seq![q@] + rest));
            }
            pos = next;
            k = k + 1;
        }
        assert(questions@.map_values(|q: DnsQuestion| q@) =~= all);
        let answer = DnsAnswer {
            name: Vec::new(),
            typ: QType::A,
            class: QClass::IN,
            ttl: 0,
            rdlength: 0,
            rddata: Vec::new(),
        };
        assert(answer@ =~= empty_answer());
        DnsMessage { header, questions, answer }
    }

    /// Turns a query into its response, as `response_of` says.
    pub fn to_response(&mut self)
        requires
            old(self).questions@.len() <= u16::MAX,
        ensures
            final(self)@ == response_of(old(self)@),
    {
        let name = if self.questions.len() > 0 {
            copy_name(&self.questions[0].qname)
        } else {
            Vec::new()
        };
        let mut rddata: Vec<Ipv4Address> = Vec::new();
        rddata.push(Ipv4Address::new(8, 8, 8, 8));
        self.answer = DnsAnswer {
            name,
            typ: QType::A,
            class: QClass::IN,
            ttl: RESPONSE_TTL,
            rdlength: 4,
            rddata,
        };
        self.header.qr = QueryResponse::Reply;
        self.header.qdcount = self.questions.len() as u16;
        self.header.ancount = 1;
        self.header.nscount = 0;
        self.header.arcount = 0;
        assert(self.answer.rddata@ =~= seq![Ipv4Address(8, 8, 8, 8)]);
        assert(self@.2 =~= response_answer(old(self)@.1));
    }
}

/// A copy of a name, label by label.
fn copy_name(name: &Vec<String>) -> (r: Vec<String>)
    ensures
        r@ == name@,
{
    let mut out: Vec<String> = Vec::new();
    let mut i: usize = 0;
    while i < name.len()
        invariant
            i <= name@.len(),
            out@ == name@.take(i as int),
        decreases name@.len() - i,
    {
        out.push(name[i].clone());
        assert(out@ =~= name@.take(i + 1));
        i = i + 1;
    }
    assert(name@.take(name@.len() as int) =~= name@);
    out
}

/// The response to one datagram: the query read from it, turned into its
/// response, and encoded. `None` when the datagram is shorter than a header or
/// the response holds a name that cannot be encoded (a label over 63 octets).
pub fn respond(datagram: &[u8]) -> (r: Option<Vec<u8>>)
    ensures
        r.is_some() <==> datagram@.len() >= HEADER_SIZE_IN_BYTES && valid_message(
            response_of(message_from(datagram@)),
        ),
        r matches Some(bytes) ==> bytes@ == message_wire(response_of(message_from(datagram@))),
{
    if datagram.len() < HEADER_SIZE_IN_BYTES {
        return None;
    }
    let mut message = DnsMessage::from(datagram);
    message.to_response();
    if !message.is_valid() {
        return None;
    }
    Some(message.as_bytes())
}

/// A response to a datagram whose operation is not a standard query carries
/// the response code `NotImplemented`, whatever response code bits it held.
pub proof fn lemma_response_not_implemented(datagram: Seq<u8>)
    requires
        datagram.len() >= HEADER_SIZE_IN_BYTES,
        DnsHeader::spec_from(datagram).opcode != crate::header::OpCode::Query,
    ensures
        response_of(message_from(datagram)).0.rcode == crate::header::ResponseCode::NotImplemented,
{
}

/// A response counts its questions and its one answer in the header, and
/// leaves the other two sections empty.
pub proof fn lemma_response_counts(m: MessageView)
    requires
        m.1.len() <= u16::MAX,
    ensures
        response_of(m).0.qdcount == response_of(m).1.len(),
        response_of(m).0.ancount == 1,
        response_of(m).0.nscount == 0,
        response_of(m).0.arcount == 0,
{
}

} // verus!
