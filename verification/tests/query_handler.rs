use felix_dns::handler::{
    parse_query, plan_local_response, servfail_response, handle_packet_step, ANSWER_TTL_SECS,
    QTYPE_A,
};
use felix_dns::{DnsQuestion, Ipv4, LocalDecision, PacketOutcome, ResolverState, UpstreamAddr};
use trust_dns_proto::op::{Message, MessageType, OpCode, Query, ResponseCode};
use trust_dns_proto::rr::{Name, RData, RecordType};

fn upstream() -> UpstreamAddr {
    UpstreamAddr { ip: Ipv4::new(8, 8, 8, 8), port: 53 }
}

fn query_bytes(id: u16, name: &str, record_type: RecordType) -> Vec<u8> {
    let mut msg = Message::new();
    msg.set_id(id);
    msg.set_message_type(MessageType::Query);
    msg.set_op_code(OpCode::Query);
    msg.set_recursion_desired(true);
    msg.add_query(Query::query(Name::from_utf8(name).unwrap(), record_type));
    msg.to_vec().unwrap()
}

#[test]
fn parse_extracts_the_first_question() {
    let bytes = query_bytes(0x1234, "local.dev.", RecordType::A);
    let q = parse_query(&bytes).unwrap();
    assert_eq!(q.id, 0x1234);
    assert_eq!(q.qname, "local.dev.");
    assert_eq!(q.qtype, QTYPE_A);
}

#[test]
fn short_random_bytes_are_dropped() {
    // shorter than a minimal DNS header: no reply of any kind
    let junk: Vec<u8> = vec![0xde, 0xad, 0xbe];
    assert!(parse_query(&junk).is_none());
    let state = ResolverState::new(upstream());
    assert!(matches!(handle_packet_step(&state, &junk), PacketOutcome::Drop));
}

#[test]
fn message_with_no_question_is_dropped() {
    let mut msg = Message::new();
    msg.set_id(7);
    msg.set_message_type(MessageType::Query);
    msg.set_op_code(OpCode::Query);
    let bytes = msg.to_vec().unwrap();
    assert!(parse_query(&bytes).is_none());
    let state = ResolverState::new(upstream());
    assert!(matches!(handle_packet_step(&state, &bytes), PacketOutcome::Drop));
}

#[test]
fn local_mapping_answers_an_a_query() {
    let mut state = ResolverState::new(upstream());
    state.add_domain_sync("local.dev", Ipv4::new(127, 0, 0, 1));
    let bytes = query_bytes(0x4242, "local.dev.", RecordType::A);
    let out = handle_packet_step(&state, &bytes);
    let reply = match out {
        PacketOutcome::Respond(v) => v,
        other => panic!("expected a local answer, got {:?}", kind_of(&other)),
    };
    let msg = Message::from_vec(&reply).unwrap();
    assert_eq!(msg.id(), 0x4242);
    assert_eq!(msg.message_type(), MessageType::Response);
    assert!(msg.authoritative());
    assert_eq!(msg.queries().len(), 1);
    assert_eq!(msg.queries()[0].name().to_utf8(), "local.dev.");
    assert_eq!(msg.answers().len(), 1);
    let record = &msg.answers()[0];
    assert_eq!(record.ttl(), ANSWER_TTL_SECS);
    match record.data() {
        Some(RData::A(a)) => assert_eq!(a.0.octets(), [127, 0, 0, 1]),
        other => panic!("expected an A record, got {:?}", other),
    }
}

#[test]
fn any_query_is_answered_locally() {
    let mut state = ResolverState::new(upstream());
    state.add_domain_sync("local.dev", Ipv4::new(10, 0, 0, 9));
    let bytes = query_bytes(5, "local.dev.", RecordType::ANY);
    assert!(matches!(handle_packet_step(&state, &bytes), PacketOutcome::Respond(_)));
}

#[test]
fn unmapped_query_is_forwarded() {
    let state = ResolverState::new(upstream());
    let bytes = query_bytes(9, "nosuch.test.", RecordType::A);
    match handle_packet_step(&state, &bytes) {
        PacketOutcome::Forward(q) => {
            assert_eq!(q.id, 9);
            assert_eq!(q.qname, "nosuch.test.");
            assert_eq!(q.qtype, QTYPE_A);
        },
        other => panic!("expected forwarding, got {:?}", kind_of(&other)),
    }
}

#[test]
fn record_type_not_covered_is_forwarded() {
    // a mapping exists, but an AAAA query is a local miss and goes upstream
    let mut state = ResolverState::new(upstream());
    state.add_domain_sync("local.dev", Ipv4::new(127, 0, 0, 1));
    let bytes = query_bytes(11, "local.dev.", RecordType::AAAA);
    assert!(matches!(handle_packet_step(&state, &bytes), PacketOutcome::Forward(_)));
}

#[test]
fn persistent_state_defers_to_its_backend() {
    let state = ResolverState::new_persistent(upstream());
    let bytes = query_bytes(21, "stored.dev.", RecordType::A);
    let q = match handle_packet_step(&state, &bytes) {
        PacketOutcome::Consult(q) => q,
        other => panic!("expected a backend consult, got {:?}", kind_of(&other)),
    };
    assert_eq!(q.id, 21);
    assert_eq!(q.qname, "stored.dev.");
    // once the backend reports an address, the plan is a local answer
    match plan_local_response(&q, Some(Ipv4::new(192, 168, 1, 1))) {
        LocalDecision::Answer(reply) => {
            let msg = Message::from_vec(&reply).unwrap();
            assert_eq!(msg.id(), 21);
            assert_eq!(msg.answers().len(), 1);
        },
        _ => panic!("expected a local answer plan"),
    }
}

#[test]
fn plan_forwards_without_a_local_address() {
    let q = DnsQuestion { id: 3, qname: "nosuch.test.".to_string(), qtype: QTYPE_A };
    assert!(matches!(plan_local_response(&q, None), LocalDecision::Forward));
}

#[test]
fn servfail_reply_echoes_the_question() {
    let q = DnsQuestion { id: 0x7777, qname: "nosuch.test.".to_string(), qtype: QTYPE_A };
    let reply = servfail_response(&q).unwrap();
    let msg = Message::from_vec(&reply).unwrap();
    assert_eq!(msg.id(), 0x7777);
    assert_eq!(msg.message_type(), MessageType::Response);
    assert_eq!(msg.response_code(), ResponseCode::ServFail);
    assert!(msg.authoritative());
    assert_eq!(msg.queries().len(), 1);
    assert_eq!(msg.queries()[0].name().to_utf8(), "nosuch.test.");
    assert_eq!(msg.answers().len(), 0);
}

fn kind_of(out: &PacketOutcome) -> &'static str {
    match out {
        PacketOutcome::Drop => "Drop",
        PacketOutcome::Respond(_) => "Respond",
        PacketOutcome::RespondFailed => "RespondFailed",
        PacketOutcome::Forward(_) => "Forward",
        PacketOutcome::Consult(_) => "Consult",
    }
}
