use maelstrom_node::dispatch::{
    process_broadcast, process_echo, process_generate, process_init, process_message,
    process_read, process_topology,
};
use maelstrom_node::ids::{render_gen_id, u64_to_dec};
use maelstrom_node::maelstrom::{
    Message, MessageBody, MessageType, NodeError, State, Topology, TopologyEntry,
};

fn body(t: MessageType) -> MessageBody {
    MessageBody {
        message_type: t,
        msg_id: None,
        in_reply_to: None,
        node_id: None,
        node_ids: None,
        echo: None,
        id: None,
        message: None,
        messages: None,
        topology: None,
    }
}

fn msg(src: &str, dst: &str, b: MessageBody) -> Message {
    Message { src: String::from(src), dst: String::from(dst), body: b }
}

fn init_msg(msg_id: u64, node_id: &str, node_ids: &[&str]) -> Message {
    let mut b = body(MessageType::Init);
    b.msg_id = Some(msg_id);
    b.node_id = Some(String::from(node_id));
    b.node_ids = Some(node_ids.iter().map(|s| String::from(*s)).collect());
    msg("c1", node_id, b)
}

fn echo_msg(msg_id: u64, payload: &str) -> Message {
    let mut b = body(MessageType::Echo);
    b.msg_id = Some(msg_id);
    b.echo = Some(String::from(payload));
    msg("c1", "n1", b)
}

fn broadcast_msg(msg_id: u64, value: u64) -> Message {
    let mut b = body(MessageType::Broadcast);
    b.msg_id = Some(msg_id);
    b.message = Some(value);
    msg("c1", "n1", b)
}

fn generate_msg(msg_id: u64) -> Message {
    let mut b = body(MessageType::Generate);
    b.msg_id = Some(msg_id);
    msg("c1", "n1", b)
}

fn read_msg(msg_id: u64) -> Message {
    let mut b = body(MessageType::Read);
    b.msg_id = Some(msg_id);
    msg("c1", "n1", b)
}

fn topology_msg(msg_id: u64, entries: &[(&str, &[&str])]) -> Message {
    let mut b = body(MessageType::Topology);
    b.msg_id = Some(msg_id);
    b.topology = Some(Topology {
        entries: entries
            .iter()
            .map(|(n, ns)| TopologyEntry {
                node: String::from(*n),
                neighbors: ns.iter().map(|s| String::from(*s)).collect(),
            })
            .collect(),
    });
    msg("c1", "n1", b)
}

fn initialized() -> Option<State> {
    let mut state = None;
    process_init(&init_msg(1, "n1", &["n1"]), &mut state).unwrap();
    state
}

#[test]
fn init_then_echo_scenario() {
    // init from client c1 to node n1 with msg_id 1, then echo "hello" with
    // msg_id 2: the replies carry in_reply_to 1 / msg_id 0, then
    // in_reply_to 2 / msg_id 1 / echo "hello", with src and dest swapped.
    let mut state = None;
    let replies = process_message(&init_msg(1, "n1", &["n1"]), &mut state, 0).unwrap();
    assert_eq!(replies.len(), 1);
    let r = &replies[0];
    assert_eq!(r.src, "n1");
    assert_eq!(r.dst, "c1");
    assert!(matches!(r.body.message_type, MessageType::InitOk));
    assert_eq!(r.body.in_reply_to, Some(1));
    assert_eq!(r.body.msg_id, Some(0));
    assert!(r.body.echo.is_none());
    assert!(r.body.node_id.is_none());

    let replies = process_message(&echo_msg(2, "hello"), &mut state, 0).unwrap();
    assert_eq!(replies.len(), 1);
    let r = &replies[0];
    assert!(matches!(r.body.message_type, MessageType::EchoOk));
    assert_eq!(r.body.in_reply_to, Some(2));
    assert_eq!(r.body.msg_id, Some(1));
    assert_eq!(r.body.echo.as_deref(), Some("hello"));
}

#[test]
fn echo_round_trips_arbitrary_payloads() {
    let mut state = initialized();
    for payload in ["", "hello", "with \"quotes\" and \\", "日本語"] {
        let replies = process_echo(&echo_msg(9, payload), &mut state).unwrap();
        assert_eq!(replies[0].body.echo.as_deref(), Some(payload));
    }
}

#[test]
fn init_resets_counter_every_time() {
    let mut state = None;
    let first = process_init(&init_msg(1, "n1", &["n1"]), &mut state).unwrap();
    assert_eq!(first[0].body.msg_id, Some(0));
    // burn a few counter values
    for i in 0..5 {
        process_echo(&echo_msg(i, "x"), &mut state).unwrap();
    }
    assert_eq!(state.as_ref().unwrap().message_counter, 6);
    // a second init replaces the state wholesale: the counter is 0 again
    // before the init_ok mint, so the reply again carries msg_id 0
    let second = process_init(&init_msg(7, "n2", &["n2", "n3"]), &mut state).unwrap();
    assert_eq!(second[0].body.msg_id, Some(0));
    let st = state.as_ref().unwrap();
    assert_eq!(st.message_counter, 1);
    assert_eq!(st.node_id, "n2");
    assert_eq!(st.node_ids, vec![String::from("n2"), String::from("n3")]);
    assert!(st.topology.is_none());
    assert!(st.messages_recieved.is_empty());
}

#[test]
fn minted_ids_are_consecutive_and_distinct() {
    let mut state = initialized();
    let mut ids = Vec::new();
    for i in 0..4 {
        let r = process_echo(&echo_msg(i, "x"), &mut state).unwrap();
        ids.push(r[0].body.msg_id.unwrap());
        let r = process_generate(&generate_msg(i), &mut state, 17).unwrap();
        ids.push(r[0].body.msg_id.unwrap());
    }
    // init minted 0; the eight mints after it are 1..=8, no gaps, no repeats
    assert_eq!(ids, vec![1, 2, 3, 4, 5, 6, 7, 8]);
}

#[test]
fn broadcast_then_read_scenario() {
    // two broadcasts carrying 5 and 7, then a read: messages holds exactly
    // {5, 7}, never a dropped or doubled value
    let mut state = initialized();
    process_broadcast(&broadcast_msg(2, 5), &mut state).unwrap();
    process_broadcast(&broadcast_msg(3, 7), &mut state).unwrap();
    let replies = process_read(&read_msg(4), &state).unwrap();
    let got = replies[0].body.messages.clone().unwrap();
    assert_eq!(got.len(), 2);
    assert!(got == vec![5, 7] || got == vec![7, 5]);
}

#[test]
fn read_keeps_duplicate_multiplicities() {
    let mut state = initialized();
    for v in [5, 5, 7] {
        let r = process_broadcast(&broadcast_msg(2, v), &mut state).unwrap();
        assert!(matches!(r[0].body.message_type, MessageType::BroadcastOk));
        assert!(r[0].body.msg_id.is_none());
    }
    let replies = process_read(&read_msg(4), &state).unwrap();
    let mut got = replies[0].body.messages.clone().unwrap();
    got.sort();
    assert_eq!(got, vec![5, 5, 7]);
}

#[test]
fn generate_ids_distinct_for_distinct_clock_readings() {
    let mut state = initialized();
    let a = process_generate(&generate_msg(2), &mut state, 1000)
        .unwrap()[0]
        .body
        .id
        .clone()
        .unwrap();
    let b = process_generate(&generate_msg(3), &mut state, 1001)
        .unwrap()[0]
        .body
        .id
        .clone()
        .unwrap();
    assert_ne!(a, b);
    assert_eq!(a, "n1-1000");
    assert_eq!(b, "n1-1001");
}

#[test]
fn decimal_rendering_exact_values() {
    assert_eq!(u64_to_dec(0), "0");
    assert_eq!(u64_to_dec(9), "9");
    assert_eq!(u64_to_dec(10), "10");
    assert_eq!(u64_to_dec(1234567890), "1234567890");
    assert_eq!(u64_to_dec(u64::MAX), "18446744073709551615");
    assert_eq!(render_gen_id(&String::from("n1"), 123), "n1-123");
}

#[test]
fn second_topology_replaces_first() {
    let mut state = initialized();
    let r = process_topology(&topology_msg(2, &[("n1", &["n2"])]), &mut state).unwrap();
    assert!(matches!(r[0].body.message_type, MessageType::TopologyOk));
    assert!(r[0].body.msg_id.is_none());
    process_topology(&topology_msg(3, &[("n1", &[]), ("n2", &["n1"])]), &mut state).unwrap();
    let stored = state.as_ref().unwrap().topology.as_ref().unwrap();
    assert_eq!(stored.entries.len(), 2);
    assert_eq!(stored.entries[0].node, "n1");
    assert!(stored.entries[0].neighbors.is_empty());
    assert_eq!(stored.entries[1].node, "n2");
    assert_eq!(stored.entries[1].neighbors, vec![String::from("n1")]);
}

#[test]
fn requests_before_init_fail_uninitialized() {
    let mut state: Option<State> = None;
    assert_eq!(
        process_echo(&echo_msg(1, "x"), &mut state).unwrap_err(),
        NodeError::Uninitialized
    );
    assert_eq!(
        process_generate(&generate_msg(1), &mut state, 0).unwrap_err(),
        NodeError::Uninitialized
    );
    assert_eq!(
        process_broadcast(&broadcast_msg(1, 5), &mut state).unwrap_err(),
        NodeError::Uninitialized
    );
    assert_eq!(process_read(&read_msg(1), &state).unwrap_err(), NodeError::Uninitialized);
    assert_eq!(
        process_topology(&topology_msg(1, &[]), &mut state).unwrap_err(),
        NodeError::Uninitialized
    );
    assert!(state.is_none());
}

#[test]
fn missing_fields_fail_protocol() {
    // init without node_ids
    let mut state = None;
    let mut b = body(MessageType::Init);
    b.msg_id = Some(1);
    b.node_id = Some(String::from("n1"));
    let r = process_init(&msg("c1", "n1", b), &mut state);
    assert_eq!(r.unwrap_err(), NodeError::Protocol);
    assert!(state.is_none());

    // broadcast without a value, topology without a map
    let mut state = initialized();
    let b = body(MessageType::Broadcast);
    assert_eq!(
        process_broadcast(&msg("c1", "n1", b), &mut state).unwrap_err(),
        NodeError::Protocol
    );
    let b = body(MessageType::Topology);
    assert_eq!(
        process_topology(&msg("c1", "n1", b), &mut state).unwrap_err(),
        NodeError::Protocol
    );
    assert!(state.as_ref().unwrap().messages_recieved.is_empty());
    assert!(state.as_ref().unwrap().topology.is_none());
}

#[test]
fn unsupported_types_fail_protocol() {
    let mut state = initialized();
    for t in [MessageType::Noop, MessageType::InitOk, MessageType::EchoOk, MessageType::ReadOk] {
        let r = process_message(&msg("c1", "n1", body(t)), &mut state, 0);
        assert_eq!(r.unwrap_err(), NodeError::Protocol);
    }
}

#[test]
fn replies_swap_src_and_dest() {
    let mut state = None;
    let mut b = body(MessageType::Init);
    b.msg_id = Some(1);
    b.node_id = Some(String::from("n5"));
    b.node_ids = Some(vec![String::from("n5")]);
    let replies = process_init(&msg("c9", "n5", b), &mut state).unwrap();
    assert_eq!(replies[0].src, "n5");
    assert_eq!(replies[0].dst, "c9");
}

#[test]
fn counter_state_is_untouched_by_broadcast_read_topology() {
    let mut state = initialized();
    process_broadcast(&broadcast_msg(2, 1), &mut state).unwrap();
    process_read(&read_msg(3), &state).unwrap();
    process_topology(&topology_msg(4, &[("n1", &[])]), &mut state).unwrap();
    // only the init mint has happened
    assert_eq!(state.as_ref().unwrap().message_counter, 1);
    let r = process_echo(&echo_msg(5, "x"), &mut state).unwrap();
    assert_eq!(r[0].body.msg_id, Some(1));
}
