//! A codec for DNS messages: the 12-octet header with its bit-packed flags,
//! questions, A-record answers, and the response a minimal responder builds
//! from a parsed query.
use vstd::prelude::*;

pub mod answer;
pub mod header;
pub mod message;
pub mod question;
pub mod resrec;
pub mod wire;

pub use answer::{DnsAnswer, Ipv4Address};
pub use header::{
    AuthoritativeAnswer, DnsHeader, OpCode, QueryResponse, RecursionAvailability, RecursionDesire,
    ResponseCode, Truncated, Z,
};
pub use message::{respond, DnsMessage};
pub use question::DnsQuestion;
pub use resrec::{QClass, QType};

verus! {

} // verus!
