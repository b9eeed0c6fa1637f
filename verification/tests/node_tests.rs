use cluster_node::msg::{Body, Msg, Payload};
use cluster_node::node::Node;

fn msg(src: &str, dest: &str, msg_id: Option<usize>, payload: Payload) -> Msg {
    Msg {
        src: src.to_string(),
        dest: dest.to_string(),
        body: Body {
            msg_id,
            in_reply_to: None,
            payload,
        },
    }
}

const CROCKFORD: &str = "0123456789ABCDEFGHJKMNPQRSTVWXYZ";

#[test]
fn init_handshake() {
    let mut node = Node::new();
    let reply = node
        .step(msg(
            "c1",
            "n1",
            Some(1),
            Payload::Init {
                node_id: "n1".to_string(),
                node_ids: vec!["n1".to_string()],
            },
        ))
        .unwrap();
    assert_eq!(reply.src, "n1");
    assert_eq!(reply.dest, "c1");
    assert_eq!(reply.body.msg_id, Some(0));
    assert_eq!(reply.body.in_reply_to, Some(1));
    assert!(matches!(reply.body.payload, Payload::InitOk));
}

#[test]
fn echo_returns_same_string() {
    let mut node = Node::new();
    let reply = node
        .step(msg(
            "c1",
            "n1",
            Some(7),
            Payload::Echo {
                echo: "hi".to_string(),
            },
        ))
        .unwrap();
    assert_eq!(reply.src, "n1");
    assert_eq!(reply.dest, "c1");
    assert_eq!(reply.body.msg_id, Some(0));
    assert_eq!(reply.body.in_reply_to, Some(7));
    match reply.body.payload {
        Payload::EchoOk { echo } => assert_eq!(echo, "hi"),
        _ => panic!("expected echo_ok"),
    }
}

#[test]
fn two_generates_yield_distinct_ulids() {
    let mut node = Node::new();
    let r1 = node.step(msg("c1", "n1", Some(2), Payload::Generate)).unwrap();
    let r2 = node.step(msg("c1", "n1", Some(3), Payload::Generate)).unwrap();
    assert_eq!(r1.body.msg_id, Some(0));
    assert_eq!(r2.body.msg_id, Some(1));
    assert_eq!(r1.body.in_reply_to, Some(2));
    assert_eq!(r2.body.in_reply_to, Some(3));
    let id1 = match r1.body.payload {
        Payload::GenerateOk { id } => id,
        _ => panic!("expected generate_ok"),
    };
    let id2 = match r2.body.payload {
        Payload::GenerateOk { id } => id,
        _ => panic!("expected generate_ok"),
    };
    assert_ne!(id1, id2);
    for id in [&id1, &id2] {
        assert_eq!(id.len(), 26);
        assert!(id.chars().all(|c| CROCKFORD.contains(c)));
    }
}

#[test]
fn broadcast_then_read_keeps_order_and_duplicates() {
    let mut node = Node::new();
    for (k, v) in [10usize, 20, 10].iter().enumerate() {
        let reply = node
            .step(msg("c1", "n1", Some(k), Payload::Broadcast { message: *v }))
            .unwrap();
        assert!(matches!(reply.body.payload, Payload::BroadcastOk));
        assert_eq!(reply.body.msg_id, Some(k));
    }
    let reply = node.step(msg("c1", "n1", Some(9), Payload::Read)).unwrap();
    assert_eq!(reply.body.msg_id, Some(3));
    match reply.body.payload {
        Payload::ReadOk { messages } => assert_eq!(messages, vec![10, 20, 10]),
        _ => panic!("expected read_ok"),
    }
}

#[test]
fn read_snapshot_is_a_value_copy() {
    let mut node = Node::new();
    node.step(msg("c1", "n1", Some(0), Payload::Broadcast { message: 1 }))
        .unwrap();
    let reply = node.step(msg("c1", "n1", Some(1), Payload::Read)).unwrap();
    node.step(msg("c1", "n1", Some(2), Payload::Broadcast { message: 2 }))
        .unwrap();
    match reply.body.payload {
        Payload::ReadOk { messages } => assert_eq!(messages, vec![1]),
        _ => panic!("expected read_ok"),
    }
}

#[test]
fn topology_is_acknowledged_but_not_retained() {
    let mut node = Node::new();
    let reply = node
        .step(msg(
            "c1",
            "n1",
            Some(1),
            Payload::Topology {
                topology: vec![("n1".to_string(), vec!["n2".to_string()])],
            },
        ))
        .unwrap();
    assert!(matches!(reply.body.payload, Payload::TopologyOk));
    assert_eq!(reply.body.msg_id, Some(0));
    let reply = node.step(msg("c1", "n1", Some(2), Payload::Read)).unwrap();
    match reply.body.payload {
        Payload::ReadOk { messages } => assert_eq!(messages, Vec::<usize>::new()),
        _ => panic!("expected read_ok"),
    }
}

#[test]
fn ok_inputs_are_inert() {
    let mut node = Node::new();
    let inert = [
        Payload::InitOk,
        Payload::EchoOk {
            echo: "x".to_string(),
        },
        Payload::GenerateOk {
            id: "01D39ZY06FGSCTVN4T2V9PKHFZ".to_string(),
        },
        Payload::BroadcastOk,
        Payload::ReadOk { messages: vec![3] },
        Payload::TopologyOk,
    ];
    for p in inert {
        assert!(node.step(msg("c1", "n1", Some(4), p)).is_none());
    }
    assert_eq!(node.next_msg_id, 0);
    let reply = node
        .step(msg(
            "c1",
            "n1",
            Some(5),
            Payload::Echo {
                echo: "y".to_string(),
            },
        ))
        .unwrap();
    assert_eq!(reply.body.msg_id, Some(0));
    assert_eq!(reply.body.in_reply_to, Some(5));
}

#[test]
fn counter_counts_replies_with_no_gaps() {
    let mut node = Node::new();
    let mut seen: Vec<usize> = Vec::new();
    let inputs = vec![
        Payload::Echo {
            echo: "a".to_string(),
        },
        Payload::BroadcastOk,
        Payload::Broadcast { message: 4 },
        Payload::InitOk,
        Payload::Read,
        Payload::Generate,
    ];
    for (k, p) in inputs.into_iter().enumerate() {
        if let Some(reply) = node.step(msg("c1", "n1", Some(k), p)) {
            seen.push(reply.body.msg_id.unwrap());
            assert_eq!(reply.body.in_reply_to, Some(k));
            assert_eq!(reply.src, "n1");
            assert_eq!(reply.dest, "c1");
        }
    }
    assert_eq!(seen, vec![0, 1, 2, 3]);
    assert_eq!(node.next_msg_id, 4);
}

#[test]
fn requests_without_msg_id_get_reply_without_in_reply_to() {
    let mut node = Node::new();
    let reply = node
        .step(msg(
            "c1",
            "n1",
            None,
            Payload::Echo {
                echo: "q".to_string(),
            },
        ))
        .unwrap();
    assert_eq!(reply.body.in_reply_to, None);
    assert_eq!(reply.body.msg_id, Some(0));
}
