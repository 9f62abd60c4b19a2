//! Per-datagram query handling: decode, attempt local resolution, and decide
//! whether to answer, forward upstream, or drop.
//!
//! The handler never contacts the network itself: it returns what is to be
//! sent, and to undecodable input it returns nothing at all, so a malformed
//! packet never draws a reply.

use vstd::prelude::*;
use crate::codec::{
    answer_wire, decode_packet, decoded_query, encode_answer, encode_servfail, servfail_wire,
};
use crate::domain_map::lookup_spec;
use crate::ip::Ipv4;
use crate::resolver::ResolverState;

verus! {

/// The record-type number of an A query.
pub const QTYPE_A: u16 = 1;

/// The record-type number of an ANY query.
pub const QTYPE_ANY: u16 = 255;

/// The fixed time-to-live of synthesized answers, in seconds.
pub const ANSWER_TTL_SECS: u32 = 60;

/// How long a forwarded query waits for the upstream's reply, in seconds.
pub const FORWARD_TIMEOUT_SECS: u64 = 2;

/// The first question of a decoded query message.
#[derive(Clone, Debug)]
pub struct DnsQuestion {
    pub id: u16,
    pub qname: String,
    pub qtype: u16,
}

/// Whether a local mapping answers the question: an address was found and
/// the record type is A or ANY.
pub open spec fn answers_locally(qtype: u16, resolved: Option<Ipv4>) -> bool {
    resolved is Some && (qtype == QTYPE_A || qtype == QTYPE_ANY)
}

/// Decodes a packet and extracts its first question.  Nothing is returned
/// for undecodable bytes or a message with no question: such a packet is
/// dropped silently.
pub fn parse_query(packet: &[u8]) -> (r: Option<DnsQuestion>)
    ensures
        match decoded_query(packet@) {
            None => r is None,
            Some(d) => if d.1.len() == 0 {
                r is None
            } else {
                r matches Some(q) && q.id == d.0 && q.qname@ == d.1[0].0 && q.qtype == d.1[0].1
            },
        },
{
    match decode_packet(packet) {
        None => None,
        Some((id, mut qs)) => {
            if qs.len() == 0 {
                None
            } else {
                let (qname, qtype) = qs.remove(0);
                Some(DnsQuestion { id, qname, qtype })
            }
        },
    }
}

/// What is to be done with a question once local resolution has been
/// attempted.
pub enum LocalDecision {
    /// Send these bytes back to the client; no upstream contact.
    Answer(Vec<u8>),
    /// No local answer applies: forward the original bytes upstream.
    Forward,
    /// A local answer applies but did not encode; report the error and send
    /// nothing.
    EncodeFailed,
}

/// Decides between answering locally and forwarding, given the outcome of
/// local resolution.  A mapping that exists but does not cover the record
/// type is a local miss, forwarded like any other.
pub fn plan_local_response(q: &DnsQuestion, resolved: Option<Ipv4>) -> (r: LocalDecision)
    ensures
        match resolved {
            None => r is Forward,
            Some(ip) => if q.qtype == QTYPE_A || q.qtype == QTYPE_ANY {
                match answer_wire(q.id, q.qname@, q.qtype, ANSWER_TTL_SECS, ip.octets()) {
                    Some(w) => r matches LocalDecision::Answer(v) && v@ == w,
                    None => r is EncodeFailed,
                }
            } else {
                r is Forward
            },
        },
{
    if let Some(ip) = resolved {
        if q.qtype == QTYPE_A || q.qtype == QTYPE_ANY {
            return match encode_answer(q.id, self_qname(q), q.qtype, ANSWER_TTL_SECS, ip) {
                Some(v) => LocalDecision::Answer(v),
                None => LocalDecision::EncodeFailed,
            };
        }
    }
    LocalDecision::Forward
}

/// The SERVFAIL reply for a question whose forwarding failed: same id, the
/// question echoed back, no answers.  Nothing when the name does not
/// re-encode; the caller then sends nothing.
pub fn servfail_response(q: &DnsQuestion) -> (r: Option<Vec<u8>>)
    ensures
        r is Some <==> servfail_wire(q.id, q.qname@, q.qtype) is Some,
        (r matches Some(v) ==> servfail_wire(q.id, q.qname@, q.qtype) == Some(v@)),
{
    encode_servfail(q.id, self_qname(q), q.qtype)
}

fn self_qname(q: &DnsQuestion) -> (r: &str)
    ensures
        r@ == q.qname@,
{
    q.qname.as_str()
}

/// Everything the caller must do with one inbound datagram.
pub enum PacketOutcome {
    /// Send nothing: the packet did not decode or carried no question.
    Drop,
    /// Send these bytes to the client; the query was answered locally.
    Respond(Vec<u8>),
    /// A local answer applied but did not encode; report it, send nothing.
    RespondFailed,
    /// Forward the original bytes upstream for this question; on forwarding
    /// failure, send the question's SERVFAIL reply instead.
    Forward(DnsQuestion),
    /// The persistent backend must be consulted for this question before a
    /// decision can be made.
    Consult(DnsQuestion),
}

/// One full handling step for an inbound datagram, up to the first point
/// that needs the network: decode, resolve against the in-memory table, and
/// decide.  With the persistent backend the question is handed back for the
/// caller to resolve, after which `plan_local_response` decides.
pub fn handle_packet_step(state: &ResolverState, packet: &[u8]) -> (r: PacketOutcome)
    requires
        state.wf(),
    ensures
        match decoded_query(packet@) {
            None => r is Drop,
            Some(d) => if d.1.len() == 0 {
                r is Drop
            } else {
                let id = d.0;
                let qn = d.1[0].0;
                let qt = d.1[0].1;
                if !state.is_in_memory() {
                    r matches PacketOutcome::Consult(q) && q.id == id && q.qname@ == qn
                        && q.qtype == qt
                } else {
                    let resolved = lookup_spec(state.table(), qn);
                    if answers_locally(qt, resolved) {
                        match answer_wire(id, qn, qt, ANSWER_TTL_SECS, resolved->0.octets()) {
                            Some(w) => r matches PacketOutcome::Respond(v) && v@ == w,
                            None => r is RespondFailed,
                        }
                    } else {
                        r matches PacketOutcome::Forward(q) && q.id == id && q.qname@ == qn
                            && q.qtype == qt
                    }
                }
            },
        },
{
    let q = match parse_query(packet) {
        None => {
            return PacketOutcome::Drop;
        },
        Some(q) => q,
    };
    if !state.has_memory_backend() {
        return PacketOutcome::Consult(q);
    }
    let resolved = state.resolve_sync(self_qname(&q));
    match plan_local_response(&q, resolved) {
        LocalDecision::Answer(v) => PacketOutcome::Respond(v),
        LocalDecision::EncodeFailed => PacketOutcome::RespondFailed,
        LocalDecision::Forward => PacketOutcome::Forward(q),
    }
}

} // verus!
