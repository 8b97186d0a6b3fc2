//! A node that keeps every value it is sent and reports them on request.
//! It answers topology messages without acting on them.
use vstd::prelude::*;
use crate::json::{
    Json, distinct_keys, entry_str, field, get, is_text, key, nums_of, nums_to_json, json_to_nums, table_of, table_to_json,
    json_to_table, table_view,
};
use crate::message::{Init, InitView, Message, MessageView, Payload};
use crate::node::{Fatal, Node};

verus! {

#[derive(Debug, Clone)]
pub enum BroadcastPayload {
    Broadcast { message: u64 },
    BroadcastOk,
    Read,
    ReadOk { messages: Vec<u64> },
    Topology { topology: Vec<(String, Vec<String>)> },
    TopologyOk,
}

pub enum BroadcastPayloadView {
    Broadcast { message: u64 },
    BroadcastOk,
    Read,
    ReadOk { messages: Seq<u64> },
    Topology { topology: Seq<(Seq<char>, Seq<Seq<char>>)> },
    TopologyOk,
}

impl View for BroadcastPayload {
    type V = BroadcastPayloadView;

    open spec fn view(&self) -> BroadcastPayloadView {
        match self {
            BroadcastPayload::Broadcast { message } => BroadcastPayloadView::Broadcast {
                message: *message,
            },
            BroadcastPayload::BroadcastOk => BroadcastPayloadView::BroadcastOk,
            BroadcastPayload::Read => BroadcastPayloadView::Read,
            BroadcastPayload::ReadOk { messages } => BroadcastPayloadView::ReadOk {
                messages: messages@,
            },
            BroadcastPayload::Topology { topology } => BroadcastPayloadView::Topology {
                topology: table_view(topology@),
            },
            BroadcastPayload::TopologyOk => BroadcastPayloadView::TopologyOk,
        }
    }
}

impl Payload for BroadcastPayload {
    /// Tagged by `type`: `broadcast` with a number `message`, `read_ok` with
    /// an array of numbers `messages`, `topology` with an object of arrays of
    /// names `topology`, and `broadcast_ok`, `read`, `topology_ok` bare.
    open spec fn spec_from_fields(obj: Seq<(String, Json)>) -> Option<BroadcastPayloadView> {
        match field(obj, "type"@) {
            Some(Json::Str(t)) => if t@ == "broadcast"@ {
                match field(obj, "message"@) {
                    Some(Json::Num(n)) => Some(BroadcastPayloadView::Broadcast { message: n }),
                    _ => None,
                }
            } else if t@ == "broadcast_ok"@ {
                Some(BroadcastPayloadView::BroadcastOk)
            } else if t@ == "read"@ {
                Some(BroadcastPayloadView::Read)
            } else if t@ == "read_ok"@ {
                match field(obj, "messages"@) {
                    Some(a) => match nums_of(a) {
                        Some(ns) => Some(BroadcastPayloadView::ReadOk { messages: ns }),
                        None => None,
                    },
                    None => None,
                }
            } else if t@ == "topology"@ {
                match field(obj, "topology"@) {
                    Some(a) => match table_of(a) {
                        Some(tb) => Some(BroadcastPayloadView::Topology { topology: tb }),
                        None => None,
                    },
                    None => None,
                }
            } else if t@ == "topology_ok"@ {
                Some(BroadcastPayloadView::TopologyOk)
            } else {
                None
            },
            _ => None,
        }
    }

    /// The topology names each node once.
    open spec fn spec_wf(v: BroadcastPayloadView) -> bool {
        match v {
            BroadcastPayloadView::Topology { topology } => distinct_keys(topology),
            _ => true,
        }
    }

    /// `type`, then the variant's one field where it has one.
    open spec fn spec_fields(v: BroadcastPayloadView, f: Seq<(String, Json)>) -> bool {
        match v {
            BroadcastPayloadView::Broadcast { message } => {
                &&& f.len() == 2
                &&& entry_str(f[0], "type"@, "broadcast"@)
                &&& f[1].0@ == "message"@
                &&& f[1].1 == Json::Num(message)
            },
            BroadcastPayloadView::BroadcastOk => f.len() == 1 && entry_str(
                f[0],
                "type"@,
                "broadcast_ok"@,
            ),
            BroadcastPayloadView::Read => f.len() == 1 && entry_str(f[0], "type"@, "read"@),
            BroadcastPayloadView::ReadOk { messages } => {
                &&& f.len() == 2
                &&& entry_str(f[0], "type"@, "read_ok"@)
                &&& f[1].0@ == "messages"@
                &&& nums_of(f[1].1) == Some(messages)
            },
            BroadcastPayloadView::Topology { topology } => {
                &&& f.len() == 2
                &&& entry_str(f[0], "type"@, "topology"@)
                &&& f[1].0@ == "topology"@
                &&& table_of(f[1].1) == Some(topology)
            },
            BroadcastPayloadView::TopologyOk => f.len() == 1 && entry_str(
                f[0],
                "type"@,
                "topology_ok"@,
            ),
        }
    }

    fn to_fields(&self) -> (r: Vec<(String, Json)>) {
        let mut r: Vec<(String, Json)> = Vec::new();
        match self {
            BroadcastPayload::Broadcast { message } => {
                r.push((key("type"), Json::Str(key("broadcast"))));
                r.push((key("message"), Json::Num(*message)));
            },
            BroadcastPayload::BroadcastOk => {
                r.push((key("type"), Json::Str(key("broadcast_ok"))));
            },
            BroadcastPayload::Read => {
                r.push((key("type"), Json::Str(key("read"))));
            },
            BroadcastPayload::ReadOk { messages } => {
                r.push((key("type"), Json::Str(key("read_ok"))));
                r.push((key("messages"), nums_to_json(messages)));
            },
            BroadcastPayload::Topology { topology } => {
                r.push((key("type"), Json::Str(key("topology"))));
                r.push((key("topology"), table_to_json(topology)));
            },
            BroadcastPayload::TopologyOk => {
                r.push((key("type"), Json::Str(key("topology_ok"))));
            },
        }
        proof {
            reveal_strlit("type");
            reveal_strlit("broadcast");
            reveal_strlit("broadcast_ok");
            reveal_strlit("read");
            reveal_strlit("read_ok");
            reveal_strlit("topology");
            reveal_strlit("topology_ok");
            reveal_strlit("message");
            reveal_strlit("messages");
            reveal_strlit("msg_id");
            reveal_strlit("in_reply_to");
            reveal_with_fuel(field, 3);
            assert("broadcast"@.len() == 9);
            assert("broadcast_ok"@.len() == 12);
            assert("read"@.len() == 4);
            assert("read_ok"@.len() == 7);
            assert("topology"@.len() == 8);
            assert("topology_ok"@.len() == 11);
            assert forall|rest: Seq<(String, Json)>| #[trigger] Self::spec_from_fields(r@ + rest)
                == Some(self@) by {
                let o = r@ + rest;
                assert(o[0] == r@[0]);
                if r@.len() == 2 {
                    assert(o.drop_first()[0] == r@[1]);
                    assert(r@[1].0@.len() != "type"@.len());
                }
            }
            assert forall|i: int| 0 <= i < r@.len() implies #[trigger] r@[i].0@ != "msg_id"@
                && r@[i].0@ != "in_reply_to"@ by {
                assert(r@[i].0@.len() != "msg_id"@.len());
                assert(r@[i].0@.len() != "in_reply_to"@.len());
            }
        }
        r
    }

    fn from_fields(obj: &Vec<(String, Json)>) -> (r: Option<BroadcastPayload>) {
        let tag = match get(obj, "type") {
            Some(Json::Str(t)) => t,
            _ => {
                return None;
            },
        };
        if is_text(tag, "broadcast") {
            match get(obj, "message") {
                Some(Json::Num(n)) => Some(BroadcastPayload::Broadcast { message: *n }),
                _ => None,
            }
        } else if is_text(tag, "broadcast_ok") {
            Some(BroadcastPayload::BroadcastOk)
        } else if is_text(tag, "read") {
            Some(BroadcastPayload::Read)
        } else if is_text(tag, "read_ok") {
            match get(obj, "messages") {
                Some(a) => match json_to_nums(a) {
                    Some(ns) => Some(BroadcastPayload::ReadOk { messages: ns }),
                    None => None,
                },
                None => None,
            }
        } else if is_text(tag, "topology") {
            match get(obj, "topology") {
                Some(a) => match json_to_table(a) {
                    Some(tb) => Some(BroadcastPayload::Topology { topology: tb }),
                    None => None,
                },
                None => None,
            }
        } else if is_text(tag, "topology_ok") {
            Some(BroadcastPayload::TopologyOk)
        } else {
            None
        }
    }
}

fn copy_nums(v: &Vec<u64>) -> (r: Vec<u64>)
    ensures
        r@ == v@,
{
    let mut r: Vec<u64> = Vec::new();
    let mut i: usize = 0;
    while i < v.len()
        invariant
            0 <= i <= v.len(),
            r@ == v@.take(i as int),
        decreases v.len() - i,
    {
        r.push(v[i]);
        i = i + 1;
        assert(r@ =~= v@.take(i as int));
    }
    assert(v@.take(v.len() as int) =~= v@);
    r
}

/// A node that records broadcast values locally, in the order received.
#[derive(Debug, Clone)]
pub struct BroadcastNode {
    pub node: String,
    pub id: usize,
    pub messages: Vec<u64>,
}

impl Node<(), BroadcastPayload> for BroadcastNode {
    open spec fn next_id(&self) -> nat {
        self.id as nat
    }

    /// A node named by the roster, with nothing recorded, whose first reply
    /// takes id 1.
    open spec fn spec_init(state: (), init: InitView, r: Result<BroadcastNode, Fatal>) -> bool {
        r is Ok && r->Ok_0.node@ == init.node_id && r->Ok_0.id == 1 && r->Ok_0.messages@.len()
            == 0
    }

    /// `broadcast` records its value and gets `broadcast_ok`; `read` gets
    /// `read_ok` with every value recorded so far; `topology` gets
    /// `topology_ok`. The acknowledgments, and any message that is itself a
    /// reply, get nothing and change nothing.
    open spec fn spec_step(
        pre: BroadcastNode,
        input: MessageView<BroadcastPayloadView>,
        post: BroadcastNode,
        r: Result<Seq<MessageView<BroadcastPayloadView>>, Fatal>,
    ) -> bool {
        if input.in_reply_to is Some || input.payload is BroadcastOk || input.payload is ReadOk
            || input.payload is TopologyOk {
            r is Ok && r->Ok_0.len() == 0 && post == pre
        } else if pre.id == usize::MAX {
            r == Err::<Seq<MessageView<BroadcastPayloadView>>, Fatal>(Fatal::IdsExhausted) && post
                == pre
        } else {
            &&& r is Ok
            &&& r->Ok_0.len() == 1
            &&& post.node == pre.node
            &&& match input.payload {
                BroadcastPayloadView::Broadcast { message } => {
                    &&& r->Ok_0[0].payload == BroadcastPayloadView::BroadcastOk
                    &&& post.messages@ == pre.messages@.push(message)
                },
                BroadcastPayloadView::Read => {
                    &&& r->Ok_0[0].payload == (BroadcastPayloadView::ReadOk {
                        messages: pre.messages@,
                    })
                    &&& post.messages@ == pre.messages@
                },
                _ => {
                    &&& r->Ok_0[0].payload == BroadcastPayloadView::TopologyOk
                    &&& post.messages@ == pre.messages@
                },
            }
        }
    }

    fn from_init(_state: (), init: Init) -> (r: Result<BroadcastNode, Fatal>) {
        Ok(BroadcastNode { node: init.node_id, id: 1, messages: Vec::new() })
    }

    fn step(&mut self, input: Message<BroadcastPayload>) -> (r: Result<
        Vec<Message<BroadcastPayload>>,
        Fatal,
    >) {
        if input.body.in_reply_to.is_some() {
            return Ok(Vec::new());
        }
        match input.body.payload {
            BroadcastPayload::BroadcastOk | BroadcastPayload::ReadOk { .. }
            | BroadcastPayload::TopologyOk => {
                return Ok(Vec::new());
            },
            _ => {},
        }
        if self.id == usize::MAX {
            return Err(Fatal::IdsExhausted);
        }
        let mut reply = input.into_reply(&mut self.id);
        let answer = match reply.body.payload {
            BroadcastPayload::Broadcast { message } => {
                self.messages.push(message);
                BroadcastPayload::BroadcastOk
            },
            BroadcastPayload::Read => BroadcastPayload::ReadOk {
                messages: copy_nums(&self.messages),
            },
            _ => BroadcastPayload::TopologyOk,
        };
        reply.body.payload = answer;
        let mut out: Vec<Message<BroadcastPayload>> = Vec::new();
        out.push(reply);
        Ok(out)
    }
}

} // verus!
