//! Laws of the node: properties of single transitions and of whole runs,
//! stated over the transition relation `valid_step` that `Node::step`
//! guarantees.

use crate::ident::{is_crockford_char, lemma_ulid_chars_injective, lemma_ulid_chars_shape, ulid_chars};
use crate::msg::{is_reply_payload, MsgView, PayloadView};
use crate::node::{init_node, valid_step, NodeView};
use vstd::prelude::*;

verus! {

/// One recorded transition of a run: the state before, the input envelope,
/// the state after, and the reply, if one was emitted.
pub struct StepRec {
    pub pre: NodeView,
    pub input: MsgView,
    pub post: NodeView,
    pub reply: Option<MsgView>,
}

/// A run of the node from process start: the first state is the initial
/// one, consecutive records share their intermediate state, and every
/// record is a transition that `Node::step` can make.
pub open spec fn valid_run(run: Seq<StepRec>) -> bool {
    &&& run.len() > 0 ==> run[0].pre == init_node()
    &&& forall|i: int| 0 <= i && i + 1 < run.len() ==> (#[trigger] run[i + 1].pre) == run[i].post
    &&& forall|i: int|
        0 <= i < run.len() ==> valid_step(
            (#[trigger] run[i]).pre,
            run[i].input,
            run[i].post,
            run[i].reply,
        )
}

/// Reply correlation: a reply's `in_reply_to` is the request's `msg_id`.
pub proof fn lemma_reply_correlation(
    pre: NodeView,
    input: MsgView,
    post: NodeView,
    reply: Option<MsgView>,
)
    requires
        valid_step(pre, input, post, reply),
    ensures
        reply matches Some(r) ==> r.body.in_reply_to == input.body.msg_id,
{
}

/// Address swap: a reply's `src` is the request's `dest`, and the other way
/// round.
pub proof fn lemma_address_swap(
    pre: NodeView,
    input: MsgView,
    post: NodeView,
    reply: Option<MsgView>,
)
    requires
        valid_step(pre, input, post, reply),
    ensures
        reply matches Some(r) ==> r.src == input.dest && r.dest == input.src,
{
}

/// Echo identity: the reply to an echo request carries the request's
/// string, byte for byte.
pub proof fn lemma_echo_identity(
    pre: NodeView,
    input: MsgView,
    post: NodeView,
    reply: Option<MsgView>,
)
    requires
        valid_step(pre, input, post, reply),
        input.body.payload is Echo,
    ensures
        reply matches Some(r) && r.body.payload == (PayloadView::EchoOk {
            echo: input.body.payload->Echo_echo,
        }),
{
}

/// Topology acceptance: a topology request is acknowledged whatever the map
/// holds, and nothing but the counter changes.
pub proof fn lemma_topology_acceptance(
    pre: NodeView,
    input: MsgView,
    post: NodeView,
    reply: Option<MsgView>,
)
    requires
        valid_step(pre, input, post, reply),
        input.body.payload is Topology,
    ensures
        reply matches Some(r) && r.body.payload is TopologyOk,
        post.messages == pre.messages,
        post.last_id == pre.last_id,
        post.next_msg_id == pre.next_msg_id + 1,
{
}

/// Inert `*Ok` inputs: a reply arriving as input produces no output and
/// changes nothing, the counter included.
pub proof fn lemma_ok_inputs_inert(
    pre: NodeView,
    input: MsgView,
    post: NodeView,
    reply: Option<MsgView>,
)
    requires
        valid_step(pre, input, post, reply),
        is_reply_payload(input.body.payload),
    ensures
        reply is None,
        post == pre,
{
}

/// The replies a run emits, in emission order.
pub open spec fn emitted(run: Seq<StepRec>) -> Seq<MsgView>
    decreases run.len(),
{
    if run.len() == 0 {
        Seq::empty()
    } else {
        emitted(run.drop_last()) + match run.last().reply {
            Some(m) => seq![m],
            None => Seq::empty(),
        }
    }
}

/// Monotone counter: across a run the emitted replies carry `msg_id`
/// values 0, 1, 2, ... in emission order, with no gaps and no repeats, and
/// the counter equals the number of replies emitted so far.
pub proof fn lemma_monotone_counter(run: Seq<StepRec>)
    requires
        valid_run(run),
    ensures
        run.len() > 0 ==> run.last().post.next_msg_id == emitted(run).len(),
        forall|j: int|
            0 <= j < emitted(run).len() ==> (#[trigger] emitted(run)[j]).body.msg_id == Some(
                j as nat,
            ),
    decreases run.len(),
{
    if run.len() == 0 {
    } else {
        let front = run.drop_last();
        assert(valid_run(front)) by {
            assert(forall|i: int|
                0 <= i < front.len() ==> (#[trigger] front[i]) == run[i]);
        }
        lemma_monotone_counter(front);
        let last = run.last();
        assert(valid_step(last.pre, last.input, last.post, last.reply));
        if front.len() == 0 {
            assert(last.pre == init_node());
            assert(emitted(front) =~= Seq::<MsgView>::empty());
        } else {
            assert(last.pre == front.last().post) by {
                assert(run[run.len() - 2 + 1].pre == run[run.len() - 2].post);
                assert(front.last() == run[run.len() - 2]);
            }
        }
        assert(last.pre.next_msg_id == emitted(front).len());
        match last.reply {
            Some(m) => {
                assert(emitted(run) =~= emitted(front) + seq![m]);
                assert(m.body.msg_id == Some(last.pre.next_msg_id));
                assert(last.post.next_msg_id == last.pre.next_msg_id + 1);
            },
            None => {
                assert(emitted(run) =~= emitted(front));
                assert(last.post == last.pre);
            },
        }
    }
}

/// The node's last issued ULID value never goes down across one step.
pub proof fn lemma_last_id_step(pre: NodeView, input: MsgView, post: NodeView, reply: Option<MsgView>)
    requires
        valid_step(pre, input, post, reply),
    ensures
        pre.last_id <= post.last_id,
{
}

/// The node's last issued ULID value never goes down across a run.
pub proof fn lemma_last_id_monotone(run: Seq<StepRec>, i: int, j: int)
    requires
        valid_run(run),
        0 <= i <= j < run.len(),
    ensures
        run[i].post.last_id <= run[j].post.last_id,
        run[i].pre.last_id <= run[j].pre.last_id,
        i < j ==> run[i].post.last_id <= run[j].pre.last_id,
    decreases j - i,
{
    lemma_last_id_step(run[i].pre, run[i].input, run[i].post, run[i].reply);
    lemma_last_id_step(run[j].pre, run[j].input, run[j].post, run[j].reply);
    if i < j {
        lemma_last_id_monotone(run, i + 1, j);
        assert(run[i + 1].pre == run[i].post);
    }
}

/// Generate uniqueness: two generate requests answered in one run carry
/// distinct identifiers, as long as the identifier space was not exhausted
/// when the later one arrived.
pub proof fn lemma_generate_unique(run: Seq<StepRec>, i: int, j: int)
    requires
        valid_run(run),
        0 <= i < j < run.len(),
        run[i].input.body.payload is Generate,
        run[j].input.body.payload is Generate,
        run[j].pre.last_id < u128::MAX,
    ensures
        run[i].reply matches Some(mi) && mi.body.payload matches PayloadView::GenerateOk {
            id: idi,
        } && run[j].reply matches Some(mj) && mj.body.payload matches PayloadView::GenerateOk {
            id: idj,
        } && idi != idj,
{
    assert(valid_step(run[i].pre, run[i].input, run[i].post, run[i].reply));
    assert(valid_step(run[j].pre, run[j].input, run[j].post, run[j].reply));
    let a = run[i].post.last_id;
    let b = run[j].post.last_id;
    lemma_last_id_monotone(run, i, j);
    assert(a <= run[j].pre.last_id);
    assert(b > run[j].pre.last_id);
    if ulid_chars(a) == ulid_chars(b) {
        lemma_ulid_chars_injective(a, b);
    }
    assert(ulid_chars(a) != ulid_chars(b));
}

/// Every generate reply carries a 26-character identifier made of Crockford
/// base-32 characters alone.
pub proof fn lemma_generate_id_shape(
    pre: NodeView,
    input: MsgView,
    post: NodeView,
    reply: Option<MsgView>,
)
    requires
        valid_step(pre, input, post, reply),
        input.body.payload is Generate,
    ensures
        reply matches Some(r) && r.body.payload matches PayloadView::GenerateOk {
            id,
        } && id.len() == 26 && forall|k: int| 0 <= k < 26 ==> is_crockford_char(#[trigger] id[k]),
{
    lemma_ulid_chars_shape(post.last_id);
}

/// The broadcast values a run accepted, in arrival order.
pub open spec fn broadcast_values(run: Seq<StepRec>) -> Seq<usize>
    decreases run.len(),
{
    if run.len() == 0 {
        Seq::empty()
    } else {
        broadcast_values(run.drop_last()) + match run.last().input.body.payload {
            PayloadView::Broadcast { message } => seq![message],
            _ => Seq::empty(),
        }
    }
}

/// Broadcast accumulation, state half: at every point of a run the node
/// holds exactly the broadcast values accepted so far, in arrival order.
pub proof fn lemma_messages_accumulate(run: Seq<StepRec>)
    requires
        valid_run(run),
    ensures
        run.len() > 0 ==> run.last().post.messages == broadcast_values(run),
        forall|i: int|
            0 <= i < run.len() ==> (#[trigger] run[i]).pre.messages == broadcast_values(
                run.take(i),
            ),
    decreases run.len(),
{
    if run.len() == 0 {
    } else {
        let front = run.drop_last();
        assert(valid_run(front)) by {
            assert(forall|i: int|
                0 <= i < front.len() ==> (#[trigger] front[i]) == run[i]);
        }
        lemma_messages_accumulate(front);
        let last = run.last();
        assert(valid_step(last.pre, last.input, last.post, last.reply));
        if front.len() == 0 {
            assert(broadcast_values(front) =~= Seq::<usize>::empty());
        } else {
            assert(last.pre == front.last().post) by {
                assert(run[run.len() - 2 + 1].pre == run[run.len() - 2].post);
                assert(front.last() == run[run.len() - 2]);
            }
        }
        assert(run.take(run.len() - 1) =~= front);
        assert(last.pre.messages == broadcast_values(front));
        match last.input.body.payload {
            PayloadView::Broadcast { message } => {
                assert(last.post.messages =~= broadcast_values(front) + seq![message]);
            },
            _ => {
                assert(broadcast_values(run) =~= broadcast_values(front));
            },
        }
        assert forall|i: int|
            0 <= i < run.len() implies (#[trigger] run[i]).pre.messages == broadcast_values(
            run.take(i),
        ) by {
            if i < run.len() - 1 {
                assert(front[i] == run[i]);
                assert(run.take(i) =~= front.take(i));
            } else {
                assert(run.take(i) =~= front);
            }
        }
    }
}

/// Broadcast accumulation, read half: a read request at any point of a run
/// is answered with exactly the broadcast values accepted before it, in
/// arrival order.
pub proof fn lemma_read_returns_broadcasts(run: Seq<StepRec>, i: int)
    requires
        valid_run(run),
        0 <= i < run.len(),
        run[i].input.body.payload is Read,
    ensures
        run[i].reply matches Some(r) && r.body.payload == (PayloadView::ReadOk {
            messages: broadcast_values(run.take(i)),
        }),
{
    lemma_messages_accumulate(run);
    assert(valid_step(run[i].pre, run[i].input, run[i].post, run[i].reply));
}

} // verus!
