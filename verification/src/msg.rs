//! The message envelope: `src`, `dest`, and a body whose payload is a tagged
//! union keyed by the wire field `type`.

use vstd::prelude::*;

verus! {

/// The payload variants the protocol knows. Requests come in, `*Ok` replies
/// go out; an `*Ok` arriving as input is ignored by the node.
pub enum Payload {
    Echo { echo: String },
    EchoOk { echo: String },
    Init { node_id: String, node_ids: Vec<String> },
    InitOk,
    Generate,
    GenerateOk { id: String },
    Broadcast { message: usize },
    BroadcastOk,
    Read,
    ReadOk { messages: Vec<usize> },
    Topology { topology: Vec<(String, Vec<String>)> },
    TopologyOk,
}

/// The mathematical shape of a payload: strings as character sequences.
#[verifier::ext_equal]
pub enum PayloadView {
    Echo { echo: Seq<char> },
    EchoOk { echo: Seq<char> },
    Init { node_id: Seq<char>, node_ids: Seq<Seq<char>> },
    InitOk,
    Generate,
    GenerateOk { id: Seq<char> },
    Broadcast { message: usize },
    BroadcastOk,
    Read,
    ReadOk { messages: Seq<usize> },
    Topology { topology: Seq<(Seq<char>, Seq<Seq<char>>)> },
    TopologyOk,
}

impl View for Payload {
    type V = PayloadView;

    open spec fn view(&self) -> PayloadView {
        match self {
            Payload::Echo { echo } => PayloadView::Echo { echo: echo@ },
            Payload::EchoOk { echo } => PayloadView::EchoOk { echo: echo@ },
            Payload::Init { node_id, node_ids } => PayloadView::Init {
                node_id: node_id@,
                node_ids: node_ids.deep_view(),
            },
            Payload::InitOk => PayloadView::InitOk,
            Payload::Generate => PayloadView::Generate,
            Payload::GenerateOk { id } => PayloadView::GenerateOk { id: id@ },
            Payload::Broadcast { message } => PayloadView::Broadcast { message: *message },
            Payload::BroadcastOk => PayloadView::BroadcastOk,
            Payload::Read => PayloadView::Read,
            Payload::ReadOk { messages } => PayloadView::ReadOk { messages: messages@ },
            Payload::Topology { topology } => PayloadView::Topology {
                topology: topology.deep_view(),
            },
            Payload::TopologyOk => PayloadView::TopologyOk,
        }
    }
}

/// A message body: the optional ids sit beside the payload's own fields on
/// the wire.
pub struct Body {
    pub msg_id: Option<usize>,
    pub in_reply_to: Option<usize>,
    pub payload: Payload,
}

#[verifier::ext_equal]
pub struct BodyView {
    pub msg_id: Option<nat>,
    pub in_reply_to: Option<nat>,
    pub payload: PayloadView,
}

impl View for Body {
    type V = BodyView;

    open spec fn view(&self) -> BodyView {
        BodyView {
            msg_id: match self.msg_id {
                Some(n) => Some(n as nat),
                None => None,
            },
            in_reply_to: match self.in_reply_to {
                Some(n) => Some(n as nat),
                None => None,
            },
            payload: self.payload@,
        }
    }
}

/// The envelope: addresses are opaque strings assigned by the driver.
pub struct Msg {
    pub src: String,
    pub dest: String,
    pub body: Body,
}

#[verifier::ext_equal]
pub struct MsgView {
    pub src: Seq<char>,
    pub dest: Seq<char>,
    pub body: BodyView,
}

impl View for Msg {
    type V = MsgView;

    open spec fn view(&self) -> MsgView {
        MsgView { src: self.src@, dest: self.dest@, body: self.body@ }
    }
}

/// True of the six `*Ok` variants: payloads the node emits as replies and
/// silently ignores when they arrive as input.
pub open spec fn is_reply_payload(p: PayloadView) -> bool {
    ||| p is EchoOk
    ||| p is InitOk
    ||| p is GenerateOk
    ||| p is BroadcastOk
    ||| p is ReadOk
    ||| p is TopologyOk
}

} // verus!
