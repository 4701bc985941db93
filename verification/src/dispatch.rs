//! The dispatcher and its handlers.  A spec-level state machine (`step` and
//! the `step_*` functions) says, for every inbound message, what the next
//! node state is and either the exact replies owed or the exact error; each
//! executable handler is proved to follow it.

use crate::ids::{gen_id, render_gen_id};
use crate::maelstrom::{
    fresh_state, BodyView, Message, MessageBody, MessageType, MessageView, NodeError, State,
    StateView,
};
use vstd::prelude::*;

verus! {

/// The body every reply starts from: the reply's tag, `in_reply_to` echoing
/// the request's `msg_id`, and every other field absent.
pub open spec fn reply_base(t: MessageType, m: MessageView) -> BodyView {
    BodyView {
        message_type: t,
        msg_id: None,
        in_reply_to: m.body.msg_id,
        node_id: None,
        node_ids: None,
        echo: None,
        id: None,
        message: None,
        messages: None,
        topology: None,
    }
}

/// Every reply answers as the peer the request was addressed to: `src` and
/// `dst` are the request's swapped.
pub open spec fn reply_to(m: MessageView, body: BodyView) -> MessageView {
    MessageView { src: m.dst, dst: m.src, body: body }
}

/// The outcome of one handled request: the node state afterwards, and either
/// the replies owed or the error that ends this unit of work.
pub type StepResult = (Option<StateView>, Result<Seq<MessageView>, NodeError>);

/// `init`: replace the node state entirely (counter back to 0), then mint the
/// `init_ok` reply's `msg_id` (so the stored counter is 1 and the reply
/// carries 0).  Missing `node_id` or `node_ids` is a protocol error that
/// leaves the state as it was.  `init` is the one request that needs no prior
/// initialized state.
pub open spec fn step_init(state: Option<StateView>, m: MessageView) -> StepResult {
    if m.body.node_id is Some && m.body.node_ids is Some {
        let s = StateView {
            message_counter: 1,
            ..fresh_state(m.body.node_id->0, m.body.node_ids->0)
        };
        let body = BodyView { msg_id: Some(0), ..reply_base(MessageType::InitOk, m) };
        (Some(s), Ok(seq![reply_to(m, body)]))
    } else {
        (state, Err(NodeError::Protocol))
    }
}

/// `echo`: no state effect beyond minting the reply's `msg_id`; the reply
/// carries the request's `echo` payload verbatim.
pub open spec fn step_echo(s: StateView, m: MessageView) -> StepResult {
    let s2 = StateView { message_counter: (s.message_counter + 1) as u64, ..s };
    let body = BodyView {
        msg_id: Some(s.message_counter),
        echo: m.body.echo,
        ..reply_base(MessageType::EchoOk, m)
    };
    (Some(s2), Ok(seq![reply_to(m, body)]))
}

/// `generate`: no state effect beyond minting the reply's `msg_id`; the reply
/// carries an `id` built from the node identity and the clock reading.
pub open spec fn step_generate(s: StateView, m: MessageView, now_micros: u64) -> StepResult {
    let s2 = StateView { message_counter: (s.message_counter + 1) as u64, ..s };
    let body = BodyView {
        msg_id: Some(s.message_counter),
        id: Some(gen_id(s.node_id, now_micros)),
        ..reply_base(MessageType::GenerateOk, m)
    };
    (Some(s2), Ok(seq![reply_to(m, body)]))
}

/// `broadcast`: append the carried value to the received-values log (never
/// deduplicated); the reply mints no `msg_id`.  A missing `message` field is
/// a protocol error that leaves the state as it was.
pub open spec fn step_broadcast(s: StateView, m: MessageView) -> StepResult {
    if m.body.message is Some {
        let s2 = StateView { messages_recieved: s.messages_recieved.push(m.body.message->0), ..s };
        (Some(s2), Ok(seq![reply_to(m, reply_base(MessageType::BroadcastOk, m))]))
    } else {
        (Some(s), Err(NodeError::Protocol))
    }
}

/// `read`: no state effect; the reply carries a snapshot of the full
/// received-values log and mints no `msg_id`.
pub open spec fn step_read(s: StateView, m: MessageView) -> StepResult {
    let body = BodyView {
        messages: Some(s.messages_recieved),
        ..reply_base(MessageType::ReadOk, m)
    };
    (Some(s), Ok(seq![reply_to(m, body)]))
}

/// `topology`: replace the stored topology wholesale; the reply mints no
/// `msg_id`.  A missing `topology` field is a protocol error that leaves the
/// state as it was.
pub open spec fn step_topology(s: StateView, m: MessageView) -> StepResult {
    if m.body.topology is Some {
        let s2 = StateView { topology: Some(m.body.topology->0), ..s };
        (Some(s2), Ok(seq![reply_to(m, reply_base(MessageType::TopologyOk, m))]))
    } else {
        (Some(s), Err(NodeError::Protocol))
    }
}

/// `echo` against a possibly-uninitialized node.
pub open spec fn step_echo_opt(state: Option<StateView>, m: MessageView) -> StepResult {
    match state {
        Some(s) => step_echo(s, m),
        None => (state, Err(NodeError::Uninitialized)),
    }
}

/// `generate` against a possibly-uninitialized node.
pub open spec fn step_generate_opt(
    state: Option<StateView>,
    m: MessageView,
    now_micros: u64,
) -> StepResult {
    match state {
        Some(s) => step_generate(s, m, now_micros),
        None => (state, Err(NodeError::Uninitialized)),
    }
}

/// `broadcast` against a possibly-uninitialized node.
pub open spec fn step_broadcast_opt(state: Option<StateView>, m: MessageView) -> StepResult {
    match state {
        Some(s) => step_broadcast(s, m),
        None => (state, Err(NodeError::Uninitialized)),
    }
}

/// `read` against a possibly-uninitialized node.
pub open spec fn step_read_opt(state: Option<StateView>, m: MessageView) -> StepResult {
    match state {
        Some(s) => step_read(s, m),
        None => (state, Err(NodeError::Uninitialized)),
    }
}

/// `topology` against a possibly-uninitialized node.
pub open spec fn step_topology_opt(state: Option<StateView>, m: MessageView) -> StepResult {
    match state {
        Some(s) => step_topology(s, m),
        None => (state, Err(NodeError::Uninitialized)),
    }
}

/// The full dispatch relation: route by the message's type.  Any request
/// other than `init` that arrives before the first successful `init` fails
/// with `Uninitialized`; a reply tag or unknown tag is a protocol error.
/// Every error leaves the state as it was.
pub open spec fn step(state: Option<StateView>, m: MessageView, now_micros: u64) -> StepResult {
    match m.body.message_type {
        MessageType::Init => step_init(state, m),
        MessageType::Echo => step_echo_opt(state, m),
        MessageType::Generate => step_generate_opt(state, m, now_micros),
        MessageType::Broadcast => step_broadcast_opt(state, m),
        MessageType::Read => step_read_opt(state, m),
        MessageType::Topology => step_topology_opt(state, m),
        _ => (state, Err(NodeError::Protocol)),
    }
}

/// The executable replies agree with the spec-level outcome: same error, or
/// the same reply sequence viewed message by message.
pub open spec fn replies_match(
    r: Result<Vec<Message>, NodeError>,
    s: Result<Seq<MessageView>, NodeError>,
) -> bool {
    match (r, s) {
        (Ok(v), Ok(sv)) => v.deep_view() == sv,
        (Err(e), Err(se)) => e == se,
        _ => false,
    }
}

/// Clone an optional string payload, keeping its view.
fn clone_opt_string(o: &Option<String>) -> (r: Option<String>)
    ensures
        r.deep_view() == o.deep_view(),
{
    match o {
        Some(s) => Some(s.clone()),
        None => None,
    }
}

/// Handle an `init` request.
pub fn process_init(message: &Message, state: &mut Option<State>) -> (r: Result<
    Vec<Message>,
    NodeError,
>)
    ensures
        final(state).deep_view() == step_init(old(state).deep_view(), message.deep_view()).0,
        replies_match(r, step_init(old(state).deep_view(), message.deep_view()).1),
{
    let (node_id, node_ids) = match (&message.body.node_id, &message.body.node_ids) {
        (Some(a), Some(b)) => (a.clone(), b.clone()),
        _ => {
            return Err(NodeError::Protocol);
        },
    };
    proof {
        assert(node_ids.deep_view() =~= message.body.node_ids->0.deep_view());
    }
    let mut st = State::from((node_id, node_ids));
    let msg_id = st.get_and_increment_message_id();
    *state = Some(st);
    let reply = Message {
        src: message.dst.clone(),
        dst: message.src.clone(),
        body: MessageBody {
            message_type: MessageType::InitOk,
            msg_id: Some(msg_id),
            in_reply_to: message.body.msg_id,
            node_id: None,
            node_ids: None,
            echo: None,
            id: None,
            message: None,
            messages: None,
            topology: None,
        },
    };
    let replies = vec![reply];
    proof {
        assert(final(state).deep_view() =~~= step_init(
            old(state).deep_view(),
            message.deep_view(),
        ).0);
        assert(replies.deep_view() =~~= step_init(
            old(state).deep_view(),
            message.deep_view(),
        ).1->Ok_0);
    }
    Ok(replies)
}

/// Handle an `echo` request.
pub fn process_echo(message: &Message, state: &mut Option<State>) -> (r: Result<
    Vec<Message>,
    NodeError,
>)
    requires
        old(state).deep_view() matches Some(s) ==> s.message_counter < u64::MAX,
    ensures
        final(state).deep_view() == step_echo_opt(old(state).deep_view(), message.deep_view()).0,
        replies_match(r, step_echo_opt(old(state).deep_view(), message.deep_view()).1),
{
    let st = match state {
        Some(st) => st,
        None => {
            return Err(NodeError::Uninitialized);
        },
    };
    let msg_id = st.get_and_increment_message_id();
    let reply = Message {
        src: message.dst.clone(),
        dst: message.src.clone(),
        body: MessageBody {
            message_type: MessageType::EchoOk,
            msg_id: Some(msg_id),
            in_reply_to: message.body.msg_id,
            node_id: None,
            node_ids: None,
            echo: clone_opt_string(&message.body.echo),
            id: None,
            message: None,
            messages: None,
            topology: None,
        },
    };
    let replies = vec![reply];
    proof {
        assert(replies.deep_view() =~~= step_echo_opt(
            old(state).deep_view(),
            message.deep_view(),
        ).1->Ok_0);
    }
    Ok(replies)
}

/// Handle a `generate` request.  `now_micros` is the clock reading, in
/// microseconds since a fixed epoch, supplied by the caller; the contract
/// holds whatever value the clock gave.
pub fn process_generate(message: &Message, state: &mut Option<State>, now_micros: u64) -> (r:
    Result<Vec<Message>, NodeError>)
    requires
        old(state).deep_view() matches Some(s) ==> s.message_counter < u64::MAX,
    ensures
        final(state).deep_view() == step_generate_opt(
            old(state).deep_view(),
            message.deep_view(),
            now_micros,
        ).0,
        replies_match(
            r,
            step_generate_opt(old(state).deep_view(), message.deep_view(), now_micros).1,
        ),
{
    let st = match state {
        Some(st) => st,
        None => {
            return Err(NodeError::Uninitialized);
        },
    };
    let msg_id = st.get_and_increment_message_id();
    let id_string = render_gen_id(&st.node_id, now_micros);
    let reply = Message {
        src: message.dst.clone(),
        dst: message.src.clone(),
        body: MessageBody {
            message_type: MessageType::GenerateOk,
            msg_id: Some(msg_id),
            in_reply_to: message.body.msg_id,
            node_id: None,
            node_ids: None,
            echo: None,
            id: Some(id_string),
            message: None,
            messages: None,
            topology: None,
        },
    };
    let replies = vec![reply];
    proof {
        assert(replies.deep_view() =~~= step_generate_opt(
            old(state).deep_view(),
            message.deep_view(),
            now_micros,
        ).1->Ok_0);
    }
    Ok(replies)
}

/// Handle a `broadcast` request.
pub fn process_broadcast(message: &Message, state: &mut Option<State>) -> (r: Result<
    Vec<Message>,
    NodeError,
>)
    ensures
        final(state).deep_view() == step_broadcast_opt(
            old(state).deep_view(),
            message.deep_view(),
        ).0,
        replies_match(r, step_broadcast_opt(old(state).deep_view(), message.deep_view()).1),
{
    let st = match state {
        Some(st) => st,
        None => {
            return Err(NodeError::Uninitialized);
        },
    };
    let value = match &message.body.message {
        Some(v) => *v,
        None => {
            return Err(NodeError::Protocol);
        },
    };
    st.messages_recieved.push(value);
    let reply = Message {
        src: message.dst.clone(),
        dst: message.src.clone(),
        body: MessageBody {
            message_type: MessageType::BroadcastOk,
            msg_id: None,
            in_reply_to: message.body.msg_id,
            node_id: None,
            node_ids: None,
            echo: None,
            id: None,
            message: None,
            messages: None,
            topology: None,
        },
    };
    let replies = vec![reply];
    proof {
        assert(replies.deep_view() =~~= step_broadcast_opt(
            old(state).deep_view(),
            message.deep_view(),
        ).1->Ok_0);
    }
    Ok(replies)
}

/// Handle a `read` request.  The reply carries a snapshot copy of the log,
/// taken inside the critical section.
pub fn process_read(message: &Message, state: &Option<State>) -> (r: Result<
    Vec<Message>,
    NodeError,
>)
    ensures
        replies_match(r, step_read_opt(state.deep_view(), message.deep_view()).1),
{
    let st = match state {
        Some(st) => st,
        None => {
            return Err(NodeError::Uninitialized);
        },
    };
    let messages = st.messages_recieved.clone();
    proof {
        assert(messages@ =~= st.messages_recieved@);
    }
    let reply = Message {
        src: message.dst.clone(),
        dst: message.src.clone(),
        body: MessageBody {
            message_type: MessageType::ReadOk,
            msg_id: None,
            in_reply_to: message.body.msg_id,
            node_id: None,
            node_ids: None,
            echo: None,
            id: None,
            message: None,
            messages: Some(messages),
            topology: None,
        },
    };
    let replies = vec![reply];
    proof {
        assert(replies.deep_view() =~~= step_read_opt(
            state.deep_view(),
            message.deep_view(),
        ).1->Ok_0);
    }
    Ok(replies)
}

/// Handle a `topology` request.
pub fn process_topology(message: &Message, state: &mut Option<State>) -> (r: Result<
    Vec<Message>,
    NodeError,
>)
    ensures
        final(state).deep_view() == step_topology_opt(
            old(state).deep_view(),
            message.deep_view(),
        ).0,
        replies_match(r, step_topology_opt(old(state).deep_view(), message.deep_view()).1),
{
    let st = match state {
        Some(st) => st,
        None => {
            return Err(NodeError::Uninitialized);
        },
    };
    let map = match &message.body.topology {
        Some(t) => t.clone(),
        None => {
            return Err(NodeError::Protocol);
        },
    };
    st.topology = Some(map);
    let reply = Message {
        src: message.dst.clone(),
        dst: message.src.clone(),
        body: MessageBody {
            message_type: MessageType::TopologyOk,
            msg_id: None,
            in_reply_to: message.body.msg_id,
            node_id: None,
            node_ids: None,
            echo: None,
            id: None,
            message: None,
            messages: None,
            topology: None,
        },
    };
    let replies = vec![reply];
    proof {
        assert(replies.deep_view() =~~= step_topology_opt(
            old(state).deep_view(),
            message.deep_view(),
        ).1->Ok_0);
    }
    Ok(replies)
}

/// Dispatch one decoded inbound message: route it by its type, mutate or
/// read the node state, and hand back either the replies owed or the error
/// ending this unit of work.  The caller holds exclusive access to the state
/// for the whole call.
pub fn process_message(message: &Message, state: &mut Option<State>, now_micros: u64) -> (r:
    Result<Vec<Message>, NodeError>)
    requires
        old(state).deep_view() matches Some(s) ==> ((message.deep_view().body.message_type is Echo
            || message.deep_view().body.message_type is Generate) ==> s.message_counter
            < u64::MAX),
    ensures
        final(state).deep_view() == step(
            old(state).deep_view(),
            message.deep_view(),
            now_micros,
        ).0,
        replies_match(r, step(old(state).deep_view(), message.deep_view(), now_micros).1),
{
    match message.body.message_type {
        MessageType::Init => process_init(message, state),
        MessageType::Echo => process_echo(message, state),
        MessageType::Generate => process_generate(message, state, now_micros),
        MessageType::Broadcast => process_broadcast(message, state),
        MessageType::Read => process_read(message, state),
        MessageType::Topology => process_topology(message, state),
        _ => Err(NodeError::Protocol),
    }
}

} // verus!
