//! The node state machine: one entry point, `step`, takes an incoming
//! envelope and yields the reply envelope, if the input calls for one.

use crate::ident::{fresh_ulid_value, ulid_chars, ulid_string};
use crate::msg::{is_reply_payload, Body, BodyView, Msg, MsgView, Payload, PayloadView};
use vstd::prelude::*;

verus! {

/// The node's whole mutable state: the outbound message counter, the
/// accumulated broadcast values in arrival order, and the most recently
/// issued ULID value.
pub struct Node {
    pub next_msg_id: usize,
    pub messages: Vec<usize>,
    pub last_id: u128,
}

#[verifier::ext_equal]
pub struct NodeView {
    pub next_msg_id: nat,
    pub messages: Seq<usize>,
    pub last_id: u128,
}

impl View for Node {
    type V = NodeView;

    open spec fn view(&self) -> NodeView {
        NodeView {
            next_msg_id: self.next_msg_id as nat,
            messages: self.messages@,
            last_id: self.last_id,
        }
    }
}

/// The state a node starts in: counter at zero, no broadcast values seen,
/// no identifier issued yet.
pub open spec fn init_node() -> NodeView {
    NodeView { next_msg_id: 0, messages: Seq::empty(), last_id: 0 }
}

/// The payload of the reply to a request payload. `new_last` is the ULID
/// value the node holds after the step; only a generate reply reads it.
pub open spec fn reply_payload(p: PayloadView, pre: NodeView, new_last: u128) -> PayloadView {
    match p {
        PayloadView::Echo { echo } => PayloadView::EchoOk { echo },
        PayloadView::Init { .. } => PayloadView::InitOk,
        PayloadView::Generate => PayloadView::GenerateOk { id: ulid_chars(new_last) },
        PayloadView::Broadcast { .. } => PayloadView::BroadcastOk,
        PayloadView::Read => PayloadView::ReadOk { messages: pre.messages },
        PayloadView::Topology { .. } => PayloadView::TopologyOk,
        _ => p,
    }
}

/// The whole reply envelope for a request: addresses swapped, `msg_id` set
/// to the counter, `in_reply_to` copied from the request.
pub open spec fn reply_msg(pre: NodeView, input: MsgView, new_last: u128) -> MsgView {
    MsgView {
        src: input.dest,
        dest: input.src,
        body: BodyView {
            msg_id: Some(pre.next_msg_id),
            in_reply_to: input.body.msg_id,
            payload: reply_payload(input.body.payload, pre, new_last),
        },
    }
}

/// The node state after answering a request payload: counter advanced by
/// one, a broadcast value appended, a generate step's ULID value recorded.
pub open spec fn post_node(pre: NodeView, p: PayloadView, new_last: u128) -> NodeView {
    NodeView {
        next_msg_id: pre.next_msg_id + 1,
        messages: match p {
            PayloadView::Broadcast { message } => pre.messages.push(message),
            _ => pre.messages,
        },
        last_id: if p is Generate {
            new_last
        } else {
            pre.last_id
        },
    }
}

/// One transition of the node. An `*Ok` input leaves the state untouched
/// and produces nothing; a request produces exactly the reply envelope of
/// `reply_msg` and the state of `post_node`. A generate step issues a ULID
/// value strictly above the last one, as long as the identifier space is
/// not exhausted.
pub open spec fn valid_step(
    pre: NodeView,
    input: MsgView,
    post: NodeView,
    reply: Option<MsgView>,
) -> bool {
    if is_reply_payload(input.body.payload) {
        &&& post == pre
        &&& reply is None
    } else {
        &&& post == post_node(pre, input.body.payload, post.last_id)
        &&& reply == Some(reply_msg(pre, input, post.last_id))
        &&& (input.body.payload is Generate ==> if pre.last_id < u128::MAX {
            post.last_id > pre.last_id
        } else {
            post.last_id == u128::MAX
        })
    }
}

/// The view of an optional reply envelope.
pub open spec fn opt_msg_view(reply: Option<Msg>) -> Option<MsgView> {
    match reply {
        Some(m) => Some(m@),
        None => None,
    }
}

/// A value copy of a vector of broadcast values, for a read reply's
/// snapshot.
fn copy_values(v: &Vec<usize>) -> (r: Vec<usize>)
    ensures
        r@ == v@,
{
    let mut r: Vec<usize> = Vec::new();
    let mut i: usize = 0;
    proof {
        assert(v@.take(0) =~= Seq::<usize>::empty());
    }
    while i < v.len()
        invariant
            i <= v.len(),
            r@ == v@.take(i as int),
        decreases v.len() - i,
    {
        r.push(v[i]);
        proof {
            assert(v@.take(i as int + 1) =~= v@.take(i as int).push(v@[i as int]));
        }
        i = i + 1;
    }
    proof {
        assert(v@.take(v@.len() as int) =~= v@);
    }
    r
}

impl Node {
    /// A fresh node, as built at process start.
    pub fn new() -> (node: Node)
        ensures
            node@ == init_node(),
    {
        let node = Node { next_msg_id: 0, messages: Vec::new(), last_id: 0 };
        proof {
            assert(node@ =~= init_node());
        }
        node
    }

    /// Answers one incoming envelope: an `*Ok` input is ignored, any other
    /// payload gets its reply and advances the counter by one.
    pub fn step(&mut self, input: Msg) -> (reply: Option<Msg>)
        requires
            !is_reply_payload(input@.body.payload) ==> old(self).next_msg_id < usize::MAX,
        ensures
            valid_step(old(self)@, input@, final(self)@, opt_msg_view(reply)),
    {
        let Msg { src, dest, body } = input;
        let Body { msg_id, in_reply_to: _, payload } = body;
        match payload {
            Payload::Init { node_id: _, node_ids: _ } => {
                let ans = Msg {
                    src: dest,
                    dest: src,
                    body: Body {
                        msg_id: Some(self.next_msg_id),
                        in_reply_to: msg_id,
                        payload: Payload::InitOk,
                    },
                };
                self.next_msg_id = self.next_msg_id + 1;
                Some(ans)
            },
            Payload::Echo { echo } => {
                let ans = Msg {
                    src: dest,
                    dest: src,
                    body: Body {
                        msg_id: Some(self.next_msg_id),
                        in_reply_to: msg_id,
                        payload: Payload::EchoOk { echo },
                    },
                };
                self.next_msg_id = self.next_msg_id + 1;
                Some(ans)
            },
            Payload::Generate => {
                let candidate = fresh_ulid_value();
                let new_last: u128 = if candidate > self.last_id {
                    candidate
                } else if self.last_id < u128::MAX {
                    self.last_id + 1
                } else {
                    u128::MAX
                };
                self.last_id = new_last;
                let id = ulid_string(new_last);
                let ans = Msg {
                    src: dest,
                    dest: src,
                    body: Body {
                        msg_id: Some(self.next_msg_id),
                        in_reply_to: msg_id,
                        payload: Payload::GenerateOk { id },
                    },
                };
                self.next_msg_id = self.next_msg_id + 1;
                Some(ans)
            },
            Payload::Broadcast { message } => {
                self.messages.push(message);
                let ans = Msg {
                    src: dest,
                    dest: src,
                    body: Body {
                        msg_id: Some(self.next_msg_id),
                        in_reply_to: msg_id,
                        payload: Payload::BroadcastOk,
                    },
                };
                self.next_msg_id = self.next_msg_id + 1;
                Some(ans)
            },
            Payload::Read => {
                let snapshot = copy_values(&self.messages);
                let ans = Msg {
                    src: dest,
                    dest: src,
                    body: Body {
                        msg_id: Some(self.next_msg_id),
                        in_reply_to: msg_id,
                        payload: Payload::ReadOk { messages: snapshot },
                    },
                };
                self.next_msg_id = self.next_msg_id + 1;
                Some(ans)
            },
            Payload::Topology { topology: _ } => {
                let ans = Msg {
                    src: dest,
                    dest: src,
                    body: Body {
                        msg_id: Some(self.next_msg_id),
                        in_reply_to: msg_id,
                        payload: Payload::TopologyOk,
                    },
                };
                self.next_msg_id = self.next_msg_id + 1;
                Some(ans)
            },
            Payload::InitOk => None,
            Payload::EchoOk { echo: _ } => None,
            Payload::GenerateOk { id: _ } => None,
            Payload::BroadcastOk => None,
            Payload::ReadOk { messages: _ } => None,
            Payload::TopologyOk => None,
        }
    }
}

} // verus!
