//! The protocol-wide laws, each proved against the dispatch relation `step`.
//! Because the node state sits behind one mutual-exclusion boundary, any set
//! of concurrently dispatched requests is handled in some serial order; these
//! laws quantify over every such order.

use crate::dispatch::{step, step_generate};
use crate::ids::{gen_id, lemma_gen_id_injective};
use crate::maelstrom::{MessageView, NodeError, StateView};
use vstd::prelude::*;

verus! {

/// Every `echo_ok` reply carries the request's `echo` payload verbatim, and
/// answers the request's `msg_id`, whatever the node state and however many
/// requests came before.
pub proof fn lemma_echo_round_trip(s: StateView, m: MessageView, now_micros: u64)
    requires
        m.body.message_type is Echo,
    ensures
        step(Some(s), m, now_micros).1 matches Ok(rs) && rs.len() == 1 && rs[0].body.echo
            == m.body.echo && rs[0].body.in_reply_to == m.body.msg_id,
{
}

/// `init` replaces the node state entirely: its outcome does not depend on
/// the state it found (so a second `init` resets the counter to 0 again,
/// however many messages were minted in between), the counter after an
/// accepted `init` is always 1, and the `init_ok` reply always carries the
/// freshly minted `msg_id` 0.
pub proof fn lemma_init_replaces_state(
    s1: Option<StateView>,
    s2: Option<StateView>,
    m: MessageView,
    n1: u64,
    n2: u64,
)
    requires
        m.body.message_type is Init,
        m.body.node_id is Some,
        m.body.node_ids is Some,
    ensures
        step(s1, m, n1) == step(s2, m, n2),
        step(s1, m, n1).0 matches Some(s) && s.message_counter == 1,
        step(s1, m, n1).1 matches Ok(rs) && rs.len() == 1 && rs[0].body.msg_id == Some(0u64),
{
}

/// A request whose handler mints an outbound `msg_id`.
pub open spec fn is_mint_request(m: MessageView) -> bool {
    m.body.message_type is Echo || m.body.message_type is Generate
}

/// The node state after a sequence of requests, each paired with the clock
/// reading its handler saw, applied in serialization order.
pub open spec fn run_states(s: Option<StateView>, ms: Seq<(MessageView, u64)>) -> Option<
    StateView,
>
    decreases ms.len(),
{
    if ms.len() == 0 {
        s
    } else {
        run_states(step(s, ms[0].0, ms[0].1).0, ms.drop_first())
    }
}

/// The `msg_id`s one handled request mints into its replies.
pub open spec fn minted_ids_of(r: Result<Seq<MessageView>, NodeError>) -> Seq<u64> {
    match r {
        Ok(rs) => if rs.len() == 1 && rs[0].body.msg_id is Some {
            seq![rs[0].body.msg_id->0]
        } else {
            Seq::empty()
        },
        Err(_) => Seq::empty(),
    }
}

/// All `msg_id`s minted over a sequence of requests, in serialization order.
pub open spec fn run_minted_ids(s: Option<StateView>, ms: Seq<(MessageView, u64)>) -> Seq<u64>
    decreases ms.len(),
{
    if ms.len() == 0 {
        Seq::empty()
    } else {
        minted_ids_of(step(s, ms[0].0, ms[0].1).1) + run_minted_ids(
            step(s, ms[0].0, ms[0].1).0,
            ms.drop_first(),
        )
    }
}

/// Across any number of dispatched `echo`/`generate` requests, in whatever
/// order the lock serializes them, the minted `msg_id`s are exactly the
/// consecutive run starting at the counter's value: one per mint, increasing
/// by exactly 1, with no gaps and no repeats; and the counter ends advanced
/// by exactly the number of mints.
pub proof fn lemma_mint_run(s: StateView, ms: Seq<(MessageView, u64)>)
    requires
        forall|i: int| 0 <= i < ms.len() ==> #[trigger] is_mint_request(ms[i].0),
        s.message_counter + ms.len() <= u64::MAX,
    ensures
        run_states(Some(s), ms) matches Some(s2) && s2.message_counter == s.message_counter
            + ms.len(),
        run_minted_ids(Some(s), ms) == Seq::new(
            ms.len(),
            |i: int| (s.message_counter + i) as u64,
        ),
    decreases ms.len(),
{
    if ms.len() == 0 {
        assert(run_minted_ids(Some(s), ms) =~= Seq::new(
            ms.len(),
            |i: int| (s.message_counter + i) as u64,
        ));
    } else {
        assert(is_mint_request(ms[0].0));
        let s1 = step(Some(s), ms[0].0, ms[0].1).0;
        assert(s1 matches Some(t) && t.message_counter == s.message_counter + 1);
        assert(minted_ids_of(step(Some(s), ms[0].0, ms[0].1).1) =~= seq![s.message_counter]);
        assert(forall|i: int|
            0 <= i < ms.drop_first().len() ==> #[trigger] is_mint_request(
                ms.drop_first()[i].0,
            ));
        lemma_mint_run(s1->0, ms.drop_first());
        assert(run_minted_ids(Some(s), ms) =~= Seq::new(
            ms.len(),
            |i: int| (s.message_counter + i) as u64,
        ));
    }
}

/// No two mints in such a run ever hand out the same `msg_id`, and each is
/// exactly one more than the one minted before it.
pub proof fn lemma_minted_ids_unique(s: StateView, ms: Seq<(MessageView, u64)>)
    requires
        forall|i: int| 0 <= i < ms.len() ==> #[trigger] is_mint_request(ms[i].0),
        s.message_counter + ms.len() <= u64::MAX,
    ensures
        run_minted_ids(Some(s), ms).len() == ms.len(),
        forall|i: int, j: int|
            0 <= i < j < ms.len() ==> run_minted_ids(Some(s), ms)[i] != run_minted_ids(
                Some(s),
                ms,
            )[j],
        forall|i: int|
            0 <= i < ms.len() - 1 ==> #[trigger] run_minted_ids(Some(s), ms)[i + 1]
                == run_minted_ids(Some(s), ms)[i] + 1,
{
    lemma_mint_run(s, ms);
}

/// A run that begins with an accepted `init` and continues with any number
/// of `echo`/`generate` requests mints exactly the `msg_id`s 0, 1, 2, ...,
/// one per request, pairwise distinct and with no gaps.  (An `init` arriving
/// *after* other mints starts the count over at 0 by design — the state
/// replacement of `lemma_init_replaces_state` — so the ids of a run are
/// counted per initialization.)
pub proof fn lemma_init_then_mint_run(
    s0: Option<StateView>,
    im: MessageView,
    n0: u64,
    ms: Seq<(MessageView, u64)>,
)
    requires
        im.body.message_type is Init,
        im.body.node_id is Some,
        im.body.node_ids is Some,
        forall|i: int| 0 <= i < ms.len() ==> #[trigger] is_mint_request(ms[i].0),
        1 + ms.len() <= u64::MAX,
    ensures
        run_minted_ids(s0, seq![(im, n0)] + ms) == Seq::new(ms.len() + 1, |i: int| i as u64),
        forall|i: int, j: int|
            0 <= i < j < ms.len() + 1 ==> run_minted_ids(s0, seq![(im, n0)] + ms)[i]
                != run_minted_ids(s0, seq![(im, n0)] + ms)[j],
{
    let full = seq![(im, n0)] + ms;
    assert(full[0].0 == im);
    assert(full[0].1 == n0);
    assert(full.drop_first() =~= ms);
    assert(minted_ids_of(step(s0, im, n0).1) =~= seq![0u64]);
    let s1 = step(s0, im, n0).0;
    assert(s1 matches Some(t) && t.message_counter == 1);
    lemma_mint_run(s1->0, ms);
    assert(run_minted_ids(s0, full) =~= seq![0u64] + Seq::new(
        ms.len(),
        |i: int| (1 + i) as u64,
    ));
    assert(run_minted_ids(s0, full) =~= Seq::new(ms.len() + 1, |i: int| i as u64));
}

/// The values a broadcast request carries, in serialization order.
pub open spec fn broadcast_values(ms: Seq<(MessageView, u64)>) -> Seq<u64> {
    ms.map_values(|p: (MessageView, u64)| p.0.body.message->0)
}

/// A well-formed broadcast request: the `broadcast` tag with a value present.
pub open spec fn is_broadcast_request(m: MessageView) -> bool {
    m.body.message_type is Broadcast && m.body.message is Some
}

/// After any sequence of `broadcast` requests, in whatever order the lock
/// serializes them, the log holds exactly the old log followed by the carried
/// values, duplicates kept; a `read` then replies with exactly that log, so
/// from a fresh log the reply's `messages` is a permutation of the broadcast
/// values with the same multiset (its order is the serialization order, not
/// the arrival order).
pub proof fn lemma_broadcast_then_read(
    s: StateView,
    ms: Seq<(MessageView, u64)>,
    rm: MessageView,
    now_micros: u64,
)
    requires
        forall|i: int| 0 <= i < ms.len() ==> #[trigger] is_broadcast_request(ms[i].0),
        rm.body.message_type is Read,
    ensures
        run_states(Some(s), ms) matches Some(s2) && s2.messages_recieved == s.messages_recieved
            + broadcast_values(ms) && s2.message_counter == s.message_counter,
        step(run_states(Some(s), ms), rm, now_micros).1 matches Ok(rs) && rs.len() == 1
            && rs[0].body.messages == Some(s.messages_recieved + broadcast_values(ms)),
        s.messages_recieved.len() == 0 ==> step(
            run_states(Some(s), ms),
            rm,
            now_micros,
        ).1->Ok_0[0].body.messages->0.to_multiset() =~= broadcast_values(ms).to_multiset(),
    decreases ms.len(),
{
    if ms.len() == 0 {
        assert(run_states(Some(s), ms) == Some(s));
        assert(s.messages_recieved + broadcast_values(ms) =~= s.messages_recieved);
    } else {
        assert(is_broadcast_request(ms[0].0));
        let v0 = ms[0].0.body.message->0;
        let s1 = StateView { messages_recieved: s.messages_recieved.push(v0), ..s };
        assert(step(Some(s), ms[0].0, ms[0].1).0 == Some(s1));
        assert(forall|i: int|
            0 <= i < ms.drop_first().len() ==> #[trigger] is_broadcast_request(
                ms.drop_first()[i].0,
            ));
        lemma_broadcast_then_read(s1, ms.drop_first(), rm, now_micros);
        assert(s1.messages_recieved + broadcast_values(ms.drop_first())
            =~= s.messages_recieved + broadcast_values(ms));
    }
    if s.messages_recieved.len() == 0 {
        assert(s.messages_recieved + broadcast_values(ms) =~= broadcast_values(ms));
    }
}

/// A `topology` request followed by another one: the stored topology after
/// both is the second map only, whatever was stored before.
pub proof fn lemma_topology_last_wins(
    s: StateView,
    m1: MessageView,
    m2: MessageView,
    n1: u64,
    n2: u64,
)
    requires
        m1.body.message_type is Topology,
        m1.body.topology is Some,
        m2.body.message_type is Topology,
        m2.body.topology is Some,
    ensures
        step(step(Some(s), m1, n1).0, m2, n2).0 matches Some(t) && t.topology == Some(
            m2.body.topology->0,
        ),
{
}

/// Within one node instance, `generate` replies handed distinct clock
/// readings carry pairwise distinct `id`s (the node identity is stable for
/// the instance's lifetime, so only the reading varies).
pub proof fn lemma_generate_ids_distinct(
    s1: StateView,
    s2: StateView,
    m1: MessageView,
    m2: MessageView,
    t1: u64,
    t2: u64,
)
    requires
        s1.node_id == s2.node_id,
        t1 != t2,
    ensures
        step_generate(s1, m1, t1).1 matches Ok(r1) && step_generate(s2, m2, t2).1 matches Ok(r2)
            && r1[0].body.id is Some && r2[0].body.id is Some && r1[0].body.id != r2[0].body.id,
{
    lemma_gen_id_injective(s1.node_id, t1, t2);
}

} // verus!
