//! The DNS wire codec, consumed as a black box.
//!
//! Decoding bytes into a message and encoding a response message back into
//! bytes are done by the `trust_dns_proto` crate.  Each result is a function
//! of the arguments alone, so it is given a name here; the handler's own
//! contracts speak of those names.

use vstd::prelude::*;
use trust_dns_proto::op::{Message, MessageType, OpCode, Query, ResponseCode};
use trust_dns_proto::rr::rdata::a::Ipv4Addr;
use trust_dns_proto::rr::rdata::A;
use trust_dns_proto::rr::{Name, RData, Record, RecordType};
use crate::ip::Ipv4;

verus! {

/// What decoding a DNS packet yields: nothing for undecodable bytes, else
/// the transaction id and the question list as (name, record type) pairs.
pub uninterp spec fn decoded_query(p: Seq<u8>) -> Option<(u16, Seq<(Seq<char>, u16)>)>;

/// The wire bytes of a synthesized authoritative answer: response flag set,
/// opcode Query, the question echoed back, and one A record with the given
/// ttl and address.  Nothing when the name does not re-encode.
pub uninterp spec fn answer_wire(
    id: u16,
    qname: Seq<char>,
    qtype: u16,
    ttl: u32,
    ip: (u8, u8, u8, u8),
) -> Option<Seq<u8>>;

/// The wire bytes of a synthesized SERVFAIL: response flag set, opcode
/// Query, the question echoed back, response code SERVFAIL, no answers.
/// Nothing when the name does not re-encode.
pub uninterp spec fn servfail_wire(id: u16, qname: Seq<char>, qtype: u16) -> Option<Seq<u8>>;

/// Relies on `Message::from_vec` of trust_dns_proto: decoding is a function
/// of the bytes alone.  The id and the question list (each question's name
/// from `Name::to_utf8`, its type as the record-type number) are read off
/// the decoded message.
#[verifier::external_body]
pub(crate) fn decode_packet(packet: &[u8]) -> (r: Option<(u16, Vec<(String, u16)>)>)
    ensures
        r is Some <==> decoded_query(packet@) is Some,
        (r matches Some(p) ==> decoded_query(packet@) == Some(
            (p.0, p.1@.map_values(|q: (String, u16)| (q.0@, q.1))),
        )),
{
    match Message::from_vec(packet) {
        Ok(m) => Some((
            m.id(),
            m.queries().iter().map(|q| (q.name().to_utf8(), u16::from(q.query_type()))).collect(),
        )),
        Err(_) => None,
    }
}

/// Relies on trust_dns_proto's message building and `Message::to_vec`: the
/// encoded bytes of the answer are a function of these arguments alone, and
/// encoding yields nothing only when `Name::from_utf8` or the emit step
/// fails.
#[verifier::external_body]
pub(crate) fn encode_answer(id: u16, qname: &str, qtype: u16, ttl: u32, ip: Ipv4) -> (r: Option<
    Vec<u8>,
>)
    ensures
        r is Some <==> answer_wire(id, qname@, qtype, ttl, ip.octets()) is Some,
        (r matches Some(v) ==> answer_wire(id, qname@, qtype, ttl, ip.octets()) == Some(v@)),
{
    let name = match Name::from_utf8(qname) {
        Ok(n) => n,
        Err(_) => return None,
    };
    let mut m = Message::new();
    m.set_id(id);
    m.set_message_type(MessageType::Response);
    m.set_op_code(OpCode::Query);
    m.set_authoritative(true);
    m.add_query(Query::query(name.clone(), RecordType::from(qtype)));
    m.add_answer(Record::from_rdata(name, ttl, RData::A(A::from(Ipv4Addr::new(ip.a, ip.b, ip.c, ip.d)))));
    m.to_vec().ok()
}

/// Relies on trust_dns_proto's message building and `Message::to_vec`: the
/// encoded bytes of the SERVFAIL response are a function of these arguments
/// alone, and encoding yields nothing only when `Name::from_utf8` or the
/// emit step fails.
#[verifier::external_body]
pub(crate) fn encode_servfail(id: u16, qname: &str, qtype: u16) -> (r: Option<Vec<u8>>)
    ensures
        r is Some <==> servfail_wire(id, qname@, qtype) is Some,
        (r matches Some(v) ==> servfail_wire(id, qname@, qtype) == Some(v@)),
{
    let name = match Name::from_utf8(qname) {
        Ok(n) => n,
        Err(_) => return None,
    };
    let mut m = Message::new();
    m.set_id(id);
    m.set_message_type(MessageType::Response);
    m.set_op_code(OpCode::Query);
    m.set_authoritative(true);
    m.set_response_code(ResponseCode::ServFail);
    m.add_query(Query::query(name, RecordType::from(qtype)));
    m.to_vec().ok()
}

} // verus!
