//! The node's data model: its mutable state, the wire message shapes and the
//! error kinds, together with the ghost views the contracts are stated over.

use vstd::prelude::*;

verus! {

/// The tag of a wire message, selecting the handler for a request and naming
/// the shape of a reply.  `Noop` stands for a tag outside the protocol.
#[derive(Clone, Copy, PartialEq, Eq, Structural, Debug)]
pub enum MessageType {
    Noop,
    Init,
    InitOk,
    Echo,
    EchoOk,
    Generate,
    GenerateOk,
    Broadcast,
    BroadcastOk,
    Read,
    ReadOk,
    Topology,
    TopologyOk,
}

/// The kinds of failure a unit of work can end in.  Each is local to the one
/// request that caused it: the prescribed recovery is to log and drop that
/// request, emitting no reply.
#[derive(Clone, Copy, PartialEq, Eq, Structural, Debug)]
pub enum NodeError {
    /// The input line was not valid UTF-8 or not a well-formed message.
    Decode,
    /// The message was well-formed but its type is unsupported, or a field
    /// required by its type is missing.
    Protocol,
    /// A message other than `init` arrived before the first successful `init`.
    Uninitialized,
    /// A reply could not be serialized.
    Encode,
}

/// Ghost view of [`State`]: every field as a mathematical value.
pub ghost struct StateView {
    pub node_id: Seq<char>,
    pub node_ids: Seq<Seq<char>>,
    pub topology: Option<Seq<(Seq<char>, Seq<Seq<char>>)>>,
    pub messages_recieved: Seq<u64>,
    pub message_counter: u64,
}

/// One entry of a stored topology map: a node and its neighbours.
#[derive(Debug)]
pub struct TopologyEntry {
    pub node: String,
    pub neighbors: Vec<String>,
}

impl DeepView for TopologyEntry {
    type V = (Seq<char>, Seq<Seq<char>>);

    open spec fn deep_view(&self) -> (Seq<char>, Seq<Seq<char>>) {
        (self.node@, self.neighbors.deep_view())
    }
}

/// A topology map, kept as the ordered sequence of its entries.  It is stored
/// wholesale by `topology` requests and never consulted by any other
/// operation.
#[derive(Debug)]
pub struct Topology {
    pub entries: Vec<TopologyEntry>,
}

impl DeepView for Topology {
    type V = Seq<(Seq<char>, Seq<Seq<char>>)>;

    open spec fn deep_view(&self) -> Seq<(Seq<char>, Seq<Seq<char>>)> {
        self.entries.deep_view()
    }
}

/// The node-local state: identity and peer set (from `init`), the stored
/// topology, the append-only log of broadcast values, and the monotonic
/// counter from which outbound `msg_id`s are minted.  The counter is meant to
/// be read and advanced only through [`State::get_and_increment_message_id`];
/// the field is public solely so that the contracts can speak of it.
#[derive(Debug)]
pub struct State {
    pub node_id: String,
    pub node_ids: Vec<String>,
    pub topology: Option<Topology>,
    pub messages_recieved: Vec<u64>,
    pub message_counter: u64,
}

impl DeepView for State {
    type V = StateView;

    open spec fn deep_view(&self) -> StateView {
        StateView {
            node_id: self.node_id@,
            node_ids: self.node_ids.deep_view(),
            topology: self.topology.deep_view(),
            messages_recieved: self.messages_recieved@,
            message_counter: self.message_counter,
        }
    }
}

impl Clone for TopologyEntry {
    /// Cloning an entry keeps its view.
    fn clone(&self) -> (r: Self)
        ensures
            r.deep_view() == self.deep_view(),
    {
        let r = TopologyEntry { node: self.node.clone(), neighbors: self.neighbors.clone() };
        proof {
            assert(r.neighbors.deep_view() =~= self.neighbors.deep_view());
        }
        r
    }
}

impl Clone for Topology {
    /// Cloning a topology keeps its view.
    fn clone(&self) -> (r: Self)
        ensures
            r.deep_view() == self.deep_view(),
    {
        let r = Topology { entries: self.entries.clone() };
        proof {
            assert(r.entries.deep_view() =~= self.entries.deep_view());
        }
        r
    }
}

/// Ghost view of [`MessageBody`]: every field as a mathematical value.
pub ghost struct BodyView {
    pub message_type: MessageType,
    pub msg_id: Option<u64>,
    pub in_reply_to: Option<u64>,
    pub node_id: Option<Seq<char>>,
    pub node_ids: Option<Seq<Seq<char>>>,
    pub echo: Option<Seq<char>>,
    pub id: Option<Seq<char>>,
    pub message: Option<u64>,
    pub messages: Option<Seq<u64>>,
    pub topology: Option<Seq<(Seq<char>, Seq<Seq<char>>)>>,
}

/// The body of a wire message: a tag plus the optional fields relevant to
/// that tag.  An optional field left `None` is omitted from the wire form.
#[derive(Debug)]
pub struct MessageBody {
    pub message_type: MessageType,
    pub msg_id: Option<u64>,
    pub in_reply_to: Option<u64>,
    pub node_id: Option<String>,
    pub node_ids: Option<Vec<String>>,
    pub echo: Option<String>,
    pub id: Option<String>,
    pub message: Option<u64>,
    pub messages: Option<Vec<u64>>,
    pub topology: Option<Topology>,
}

impl DeepView for MessageBody {
    type V = BodyView;

    open spec fn deep_view(&self) -> BodyView {
        BodyView {
            message_type: self.message_type,
            msg_id: self.msg_id,
            in_reply_to: self.in_reply_to,
            node_id: self.node_id.deep_view(),
            node_ids: self.node_ids.deep_view(),
            echo: self.echo.deep_view(),
            id: self.id.deep_view(),
            message: self.message,
            messages: match self.messages {
                Some(v) => Some(v@),
                None => None,
            },
            topology: self.topology.deep_view(),
        }
    }
}

/// Ghost view of [`Message`].
pub ghost struct MessageView {
    pub src: Seq<char>,
    pub dst: Seq<char>,
    pub body: BodyView,
}

/// The wire unit: source, destination and body.  A message is built fresh per
/// inbound line and per outbound reply.
#[derive(Debug)]
pub struct Message {
    pub src: String,
    pub dst: String,
    pub body: MessageBody,
}

impl DeepView for Message {
    type V = MessageView;

    open spec fn deep_view(&self) -> MessageView {
        MessageView { src: self.src@, dst: self.dst@, body: self.body.deep_view() }
    }
}

/// The view of a freshly initialized state: identity and peers from the
/// accepted `init` request, everything else reset (counter 0, no topology,
/// empty log).
pub open spec fn fresh_state(node_id: Seq<char>, node_ids: Seq<Seq<char>>) -> StateView {
    StateView {
        node_id: node_id,
        node_ids: node_ids,
        topology: None,
        messages_recieved: Seq::empty(),
        message_counter: 0,
    }
}

impl From<(String, Vec<String>)> for State {
    /// Build a freshly initialized state from an identity and a peer set.
    fn from(value: (String, Vec<String>)) -> (r: State)
        ensures
            r.deep_view() == fresh_state(value.0@, value.1.deep_view()),
    {
        let r = State {
            node_id: value.0,
            node_ids: value.1,
            topology: None,
            messages_recieved: Vec::new(),
            message_counter: 0,
        };
        proof {
            assert(r.deep_view() =~~= fresh_state(r.node_id@, r.node_ids.deep_view()));
        }
        r
    }
}

impl vstd::std_specs::convert::FromSpecImpl<(String, Vec<String>)> for State {
    /// A fresh `Vec` has no canonical abstract value, so `from` carries its
    /// exact contract on the impl itself rather than through `from_spec`.
    open spec fn obeys_from_spec() -> bool {
        false
    }

    open spec fn from_spec(v: (String, Vec<String>)) -> State {
        vstd::pervasive::arbitrary()
    }
}

impl State {
    /// Mint one outbound message identifier: return the current counter value
    /// and advance the counter by exactly one.  No identifier is ever reused.
    pub fn get_and_increment_message_id(&mut self) -> (current: u64)
        requires
            old(self).deep_view().message_counter < u64::MAX,
        ensures
            current == old(self).deep_view().message_counter,
            final(self).deep_view() == (StateView {
                message_counter: (old(self).deep_view().message_counter + 1) as u64,
                ..old(self).deep_view()
            }),
    {
        let current = self.message_counter;
        self.message_counter += 1;
        return current;
    }
}

} // verus!
