use rustagen::broadcast::{BroadcastNode, BroadcastPayload};
use rustagen::echo::{EchoNode, EchoPayload};
use rustagen::json::Json;
use rustagen::message::{Body, Init, InitPayload, Message};
use rustagen::node::{Fatal, Node};
use rustagen::runtime::{handshake, Phase, Runtime};
use rustagen::uniq::{UniqNode, UniqPayload};

fn s(x: &str) -> Json {
    Json::Str(x.to_string())
}

fn obj(entries: Vec<(&str, Json)>) -> Json {
    Json::Obj(entries.into_iter().map(|(k, v)| (k.to_string(), v)).collect())
}

fn envelope(src: &str, dest: &str, body: Vec<(&str, Json)>) -> Json {
    obj(vec![("src", s(src)), ("dest", s(dest)), ("body", obj(body))])
}

fn init_line(node: &str, roster: &[&str]) -> Json {
    envelope(
        "c1",
        node,
        vec![
            ("msg_id", Json::Num(1)),
            ("type", s("init")),
            ("node_id", s(node)),
            ("node_ids", Json::Arr(roster.iter().map(|n| s(n)).collect())),
        ],
    )
}

fn msg<P>(src: &str, dst: &str, id: Option<usize>, in_reply_to: Option<usize>, payload: P) -> Message<P> {
    Message { src: src.to_string(), dst: dst.to_string(), body: Body { id, in_reply_to, payload } }
}

#[test]
fn echo_run() {
    let mut rt: Runtime<(), EchoNode> = Runtime::new(());
    let out = rt.on_line::<EchoPayload>(Some(init_line("n1", &["n1"]))).unwrap();
    assert_eq!(out.len(), 1);
    let ok = Message::<InitPayload>::decode(&out[0]).unwrap();
    assert_eq!(ok.src, "n1");
    assert_eq!(ok.dst, "c1");
    assert_eq!(ok.body.id, Some(0));
    assert_eq!(ok.body.in_reply_to, Some(1));
    assert!(matches!(ok.body.payload, InitPayload::InitOk));

    let line = envelope("c1", "n1", vec![("msg_id", Json::Num(2)), ("type", s("echo")), ("echo", s("hi"))]);
    let out = rt.on_line::<EchoPayload>(Some(line)).unwrap();
    assert_eq!(out.len(), 1);
    let reply = Message::<EchoPayload>::decode(&out[0]).unwrap();
    assert_eq!(reply.src, "n1");
    assert_eq!(reply.dst, "c1");
    assert_eq!(reply.body.id, Some(1));
    assert_eq!(reply.body.in_reply_to, Some(2));
    match reply.body.payload {
        EchoPayload::EchoOk { echo } => assert_eq!(echo, "hi"),
        other => panic!("unexpected reply {:?}", other),
    }
    assert!(rt.on_end().is_ok());
}

#[test]
fn init_ok_is_encoded_flat() {
    let mut rt: Runtime<(), EchoNode> = Runtime::new(());
    let out = rt.on_line::<EchoPayload>(Some(init_line("n1", &["n1", "n2"]))).unwrap();
    let expected = envelope(
        "n1",
        "c1",
        vec![("type", s("init_ok")), ("msg_id", Json::Num(0)), ("in_reply_to", Json::Num(1))],
    );
    assert_eq!(out[0], expected);
}

#[test]
fn generate_ids_differ() {
    let mut rt: Runtime<(), UniqNode> = Runtime::new(());
    rt.on_line::<UniqPayload>(Some(init_line("n1", &["n1", "n2"]))).unwrap();
    let mut ids = Vec::new();
    for k in 2..4u64 {
        let line = envelope("c1", "n1", vec![("msg_id", Json::Num(k)), ("type", s("generate"))]);
        let out = rt.on_line::<UniqPayload>(Some(line)).unwrap();
        assert_eq!(out.len(), 1);
        match Message::<UniqPayload>::decode(&out[0]).unwrap().body.payload {
            UniqPayload::GenerateOk { guid } => ids.push(guid),
            other => panic!("unexpected reply {:?}", other),
        }
    }
    assert_ne!(ids[0], ids[1]);
    assert_eq!(ids[0], "n1-2");
    assert_eq!(ids[1], "n1-3");
}

#[test]
fn guid_joins_name_and_counter() {
    assert_eq!(UniqNode::guid(&"n7".to_string(), 0), "n7-0");
    assert_eq!(UniqNode::guid(&"n7".to_string(), 1205), "n7-1205");
}

#[test]
fn broadcast_then_read() {
    let mut rt: Runtime<(), BroadcastNode> = Runtime::new(());
    rt.on_line::<BroadcastPayload>(Some(init_line("n1", &["n1"]))).unwrap();
    let line = envelope("c1", "n1", vec![("msg_id", Json::Num(2)), ("type", s("broadcast")), ("message", Json::Num(5))]);
    let out = rt.on_line::<BroadcastPayload>(Some(line)).unwrap();
    let ack = Message::<BroadcastPayload>::decode(&out[0]).unwrap();
    assert!(matches!(ack.body.payload, BroadcastPayload::BroadcastOk));
    let line = envelope("c1", "n1", vec![("msg_id", Json::Num(3)), ("type", s("read"))]);
    let out = rt.on_line::<BroadcastPayload>(Some(line)).unwrap();
    let reply = Message::<BroadcastPayload>::decode(&out[0]).unwrap();
    assert_eq!(reply.body.in_reply_to, Some(3));
    match reply.body.payload {
        BroadcastPayload::ReadOk { messages } => assert_eq!(messages, vec![5]),
        other => panic!("unexpected reply {:?}", other),
    }
}

#[test]
fn topology_gets_topology_ok() {
    let mut rt: Runtime<(), BroadcastNode> = Runtime::new(());
    rt.on_line::<BroadcastPayload>(Some(init_line("n1", &["n1", "n2"]))).unwrap();
    let table = obj(vec![("n1", Json::Arr(vec![s("n2")])), ("n2", Json::Arr(vec![s("n1")]))]);
    let line = envelope("c1", "n1", vec![("msg_id", Json::Num(4)), ("type", s("topology")), ("topology", table)]);
    let out = rt.on_line::<BroadcastPayload>(Some(line)).unwrap();
    let reply = Message::<BroadcastPayload>::decode(&out[0]).unwrap();
    assert!(matches!(reply.body.payload, BroadcastPayload::TopologyOk));
    assert_eq!(reply.body.id, Some(1));
}

#[test]
fn malformed_line_is_fatal() {
    let mut rt: Runtime<(), EchoNode> = Runtime::new(());
    rt.on_line::<EchoPayload>(Some(init_line("n1", &["n1"]))).unwrap();
    assert_eq!(rt.on_line::<EchoPayload>(None).unwrap_err(), Fatal::Decode);
    assert!(matches!(rt.phase, Phase::Terminated));
}

#[test]
fn unknown_tag_is_fatal() {
    let mut rt: Runtime<(), EchoNode> = Runtime::new(());
    rt.on_line::<EchoPayload>(Some(init_line("n1", &["n1"]))).unwrap();
    let line = envelope("c1", "n1", vec![("msg_id", Json::Num(2)), ("type", s("shout"))]);
    assert_eq!(rt.on_line::<EchoPayload>(Some(line)).unwrap_err(), Fatal::Decode);
}

#[test]
fn first_message_must_be_init() {
    let mut rt: Runtime<(), EchoNode> = Runtime::new(());
    let line = envelope("c1", "n1", vec![("msg_id", Json::Num(1)), ("type", s("init_ok"))]);
    assert_eq!(rt.on_line::<EchoPayload>(Some(line)).unwrap_err(), Fatal::NotInit);
    assert!(matches!(rt.phase, Phase::Terminated));
}

#[test]
fn handshake_line_that_is_not_json() {
    let mut rt: Runtime<(), EchoNode> = Runtime::new(());
    assert_eq!(rt.on_line::<EchoPayload>(None).unwrap_err(), Fatal::Decode);
}

#[test]
fn end_before_handshake() {
    let rt: Runtime<(), EchoNode> = Runtime::new(());
    assert_eq!(rt.on_end().unwrap_err(), Fatal::NoInput);
}

#[test]
fn handshake_replies_to_sender() {
    let init = Init { node_id: "n3".to_string(), node_ids: vec!["n3".to_string()] };
    let (roster, reply) = handshake(msg("c9", "n3", Some(7), None, InitPayload::Init(init))).unwrap();
    assert_eq!(roster.node_id, "n3");
    assert_eq!(roster.node_ids, vec!["n3".to_string()]);
    assert_eq!(reply.src, "n3");
    assert_eq!(reply.dst, "c9");
    assert_eq!(reply.body.id, Some(0));
    assert_eq!(reply.body.in_reply_to, Some(7));
    assert!(handshake(msg("c9", "n3", Some(7), None, InitPayload::InitOk)).is_err());
}

#[test]
fn ids_exhausted() {
    let mut node = EchoNode { node: "n1".to_string(), id: usize::MAX };
    let input = msg("c1", "n1", Some(2), None, EchoPayload::Echo { echo: "x".to_string() });
    assert_eq!(node.step(input).unwrap_err(), Fatal::IdsExhausted);
}

#[test]
fn acknowledgments_produce_nothing() {
    let mut node = BroadcastNode { node: "n1".to_string(), id: 4, messages: vec![1, 2] };
    for payload in [
        BroadcastPayload::BroadcastOk,
        BroadcastPayload::ReadOk { messages: vec![9] },
        BroadcastPayload::TopologyOk,
    ] {
        let out = node.step(msg("n2", "n1", Some(1), Some(3), payload)).unwrap();
        assert!(out.is_empty());
    }
    assert_eq!(node.id, 4);
    assert_eq!(node.messages, vec![1, 2]);
    let mut echo = EchoNode { node: "n1".to_string(), id: 3 };
    assert!(echo.step(msg("n2", "n1", None, Some(1), EchoPayload::EchoOk { echo: "a".to_string() })).unwrap().is_empty());
    assert_eq!(echo.id, 3);
    let mut uniq = UniqNode { node: "n1".to_string(), id: 3 };
    assert!(uniq.step(msg("n2", "n1", None, Some(1), UniqPayload::GenerateOk { guid: "g".to_string() })).unwrap().is_empty());
    assert_eq!(uniq.id, 3);
}

#[test]
fn reply_ids_strictly_increase() {
    let mut node = BroadcastNode { node: "n1".to_string(), id: 1, messages: Vec::new() };
    let mut last = 0;
    for k in 0..5u64 {
        let out = node.step(msg("c1", "n1", Some(k as usize), None, BroadcastPayload::Broadcast { message: k })).unwrap();
        let id = out[0].body.id.unwrap();
        assert!(id > last);
        last = id;
    }
    assert_eq!(node.messages, vec![0, 1, 2, 3, 4]);
}

#[test]
fn round_trip_keeps_every_field() {
    let table = vec![("n1".to_string(), vec!["n2".to_string(), "n3".to_string()])];
    let cases = vec![
        msg("a", "b", Some(3), Some(2), BroadcastPayload::Topology { topology: table }),
        msg("a", "b", None, None, BroadcastPayload::ReadOk { messages: vec![7, 0, u64::MAX] }),
        msg("a", "b", Some(0), None, BroadcastPayload::Broadcast { message: 42 }),
        msg("a", "b", None, Some(9), BroadcastPayload::Read),
    ];
    for m in cases {
        let back = Message::<BroadcastPayload>::decode(&m.encode()).unwrap();
        assert_eq!(format!("{:?}", back), format!("{:?}", m));
    }
    let e = msg("x", "y", Some(1), None, EchoPayload::Echo { echo: "q\"\n".to_string() });
    let back = Message::<EchoPayload>::decode(&e.encode()).unwrap();
    assert_eq!(format!("{:?}", back), format!("{:?}", e));
}

#[test]
fn decode_rejects_missing_fields() {
    let no_src = obj(vec![("dest", s("n1")), ("body", obj(vec![("type", s("read"))]))]);
    assert!(Message::<BroadcastPayload>::decode(&no_src).is_err());
    let no_tag = envelope("c1", "n1", vec![("msg_id", Json::Num(1))]);
    assert!(Message::<BroadcastPayload>::decode(&no_tag).is_err());
    let bad_id = envelope("c1", "n1", vec![("msg_id", s("one")), ("type", s("read"))]);
    assert!(Message::<BroadcastPayload>::decode(&bad_id).is_err());
    let not_obj = Json::Arr(Vec::new());
    assert!(Message::<BroadcastPayload>::decode(&not_obj).is_err());
    let null_id = envelope("c1", "n1", vec![("msg_id", Json::Null), ("type", s("read"))]);
    assert_eq!(Message::<BroadcastPayload>::decode(&null_id).unwrap().body.id, None);
}

#[test]
fn replies_are_never_answered() {
    let mut uniq = UniqNode { node: "n1".to_string(), id: 5 };
    assert!(uniq.step(msg("n2", "n1", Some(8), Some(4), UniqPayload::Generate)).unwrap().is_empty());
    assert_eq!(uniq.id, 5);
    let mut echo = EchoNode { node: "n1".to_string(), id: 5 };
    let input = msg("n2", "n1", Some(8), Some(4), EchoPayload::Echo { echo: "hi".to_string() });
    assert!(echo.step(input).unwrap().is_empty());
    assert_eq!(echo.id, 5);
    let mut node = BroadcastNode { node: "n1".to_string(), id: 5, messages: vec![3] };
    for payload in [BroadcastPayload::Broadcast { message: 9 }, BroadcastPayload::Read] {
        assert!(node.step(msg("n2", "n1", Some(8), Some(4), payload)).unwrap().is_empty());
    }
    assert_eq!(node.id, 5);
    assert_eq!(node.messages, vec![3]);
}

#[test]
fn repeated_topology_key_is_rejected() {
    let table = obj(vec![("n1", Json::Arr(vec![s("n2")])), ("n1", Json::Arr(vec![s("n3")]))]);
    let line = envelope("c1", "n1", vec![("msg_id", Json::Num(4)), ("type", s("topology")), ("topology", table)]);
    assert!(Message::<BroadcastPayload>::decode(&line).is_err());
}

#[test]
fn absent_ids_are_omitted() {
    let m = msg("n1", "c1", Some(1), None, BroadcastPayload::BroadcastOk);
    let expected = envelope("n1", "c1", vec![("type", s("broadcast_ok")), ("msg_id", Json::Num(1))]);
    assert_eq!(m.encode(), expected);
    let m = msg("n1", "c1", None, None, UniqPayload::GenerateOk { guid: "n1-2".to_string() });
    let expected = envelope("n1", "c1", vec![("type", s("generate_ok")), ("id", s("n1-2"))]);
    assert_eq!(m.encode(), expected);
}

#[test]
fn generate_reply_is_written_exactly() {
    let mut node = UniqNode { node: "n1".to_string(), id: 1 };
    let out = node.step(msg("c1", "n1", Some(1), None, UniqPayload::Generate)).unwrap();
    let expected = envelope(
        "n1",
        "c1",
        vec![("type", s("generate_ok")), ("id", s("n1-2")), ("msg_id", Json::Num(1)), ("in_reply_to", Json::Num(1))],
    );
    assert_eq!(out[0].encode(), expected);
    assert_eq!(node.id, 2);
}
