//! A node that hands out identifiers unique across the run, built from its
//! own name and its counter.
use vstd::prelude::*;
use crate::json::{Json, entry_str, field, get, is_text, key};
use crate::message::{Init, InitView, Message, MessageView, Payload};
use crate::node::{Fatal, Node};
use crate::text::{decimal, decimal_text};
use vstd::string::StringExecFns;

verus! {

#[derive(Debug, Clone)]
pub enum UniqPayload {
    Generate,
    GenerateOk { guid: String },
}

pub enum UniqPayloadView {
    Generate,
    GenerateOk { guid: Seq<char> },
}

impl View for UniqPayload {
    type V = UniqPayloadView;

    open spec fn view(&self) -> UniqPayloadView {
        match self {
            UniqPayload::Generate => UniqPayloadView::Generate,
            UniqPayload::GenerateOk { guid } => UniqPayloadView::GenerateOk { guid: guid@ },
        }
    }
}

impl Payload for UniqPayload {
    /// `{"type": "generate"}` or `{"type": "generate_ok", "id": ..}`.
    open spec fn spec_from_fields(obj: Seq<(String, Json)>) -> Option<UniqPayloadView> {
        match field(obj, "type"@) {
            Some(Json::Str(t)) => if t@ == "generate"@ {
                Some(UniqPayloadView::Generate)
            } else if t@ == "generate_ok"@ {
                match field(obj, "id"@) {
                    Some(Json::Str(g)) => Some(UniqPayloadView::GenerateOk { guid: g@ }),
                    _ => None,
                }
            } else {
                None
            },
            _ => None,
        }
    }

    open spec fn spec_wf(v: UniqPayloadView) -> bool {
        true
    }

    /// `type`, then `id` for `generate_ok`.
    open spec fn spec_fields(v: UniqPayloadView, f: Seq<(String, Json)>) -> bool {
        match v {
            UniqPayloadView::Generate => f.len() == 1 && entry_str(f[0], "type"@, "generate"@),
            UniqPayloadView::GenerateOk { guid } => {
                &&& f.len() == 2
                &&& entry_str(f[0], "type"@, "generate_ok"@)
                &&& entry_str(f[1], "id"@, guid)
            },
        }
    }

    fn to_fields(&self) -> (r: Vec<(String, Json)>) {
        let mut r: Vec<(String, Json)> = Vec::new();
        match self {
            UniqPayload::Generate => {
                r.push((key("type"), Json::Str(key("generate"))));
            },
            UniqPayload::GenerateOk { guid } => {
                r.push((key("type"), Json::Str(key("generate_ok"))));
                r.push((key("id"), Json::Str(guid.clone())));
            },
        }
        proof {
            reveal_strlit("type");
            reveal_strlit("id");
            reveal_strlit("generate");
            reveal_strlit("generate_ok");
            reveal_strlit("msg_id");
            reveal_strlit("in_reply_to");
            reveal_with_fuel(field, 3);
            assert("generate"@ != "generate_ok"@) by {
                assert("generate"@.len() != "generate_ok"@.len());
            }
            assert("type"@ != "id"@) by { assert("type"@.len() != "id"@.len()); }
            assert forall|rest: Seq<(String, Json)>| #[trigger] Self::spec_from_fields(r@ + rest)
                == Some(self@) by {
                let o = r@ + rest;
                assert(o[0] == r@[0]);
                if r@.len() == 2 {
                    assert(o.drop_first()[0] == r@[1]);
                }
            }
            assert forall|i: int| 0 <= i < r@.len() implies #[trigger] r@[i].0@ != "msg_id"@
                && r@[i].0@ != "in_reply_to"@ by {
                assert(r@[i].0@.len() != "msg_id"@.len());
                assert(r@[i].0@.len() != "in_reply_to"@.len());
            }
        }
        r
    }

    fn from_fields(obj: &Vec<(String, Json)>) -> (r: Option<UniqPayload>) {
        let tag = match get(obj, "type") {
            Some(Json::Str(t)) => t,
            _ => {
                return None;
            },
        };
        if is_text(tag, "generate") {
            Some(UniqPayload::Generate)
        } else if is_text(tag, "generate_ok") {
            match get(obj, "id") {
                Some(Json::Str(g)) => Some(UniqPayload::GenerateOk { guid: g.clone() }),
                _ => None,
            }
        } else {
            None
        }
    }
}

/// The identifier that node `node` hands out when its counter stands at `n`.
pub open spec fn guid_of(node: Seq<char>, n: nat) -> Seq<char> {
    node + seq!['-'] + decimal(n)
}

/// A node that answers each `generate` with a fresh identifier.
#[derive(Debug, Clone)]
pub struct UniqNode {
    pub node: String,
    pub id: usize,
}

impl UniqNode {
    /// The identifier `node-n`.
    pub fn guid(node: &String, n: usize) -> (r: String)
        ensures
            r@ == guid_of(node@, n as nat),
    {
        let mut g = node.clone();
        g.append("-");
        let digits = decimal_text(n);
        g.append(digits.as_str());
        proof {
            reveal_strlit("-");
        }
        g
    }
}

impl Node<(), UniqPayload> for UniqNode {
    open spec fn next_id(&self) -> nat {
        self.id as nat
    }

    /// A node named by the roster, whose first reply takes id 1.
    open spec fn spec_init(state: (), init: InitView, r: Result<UniqNode, Fatal>) -> bool {
        r is Ok && r->Ok_0.node@ == init.node_id && r->Ok_0.id == 1
    }

    /// `generate` gets one `generate_ok` whose identifier is the node's name
    /// and its counter after the reply took its id; `generate_ok`, and any
    /// message that is itself a reply, gets nothing and changes nothing.
    open spec fn spec_step(
        pre: UniqNode,
        input: MessageView<UniqPayloadView>,
        post: UniqNode,
        r: Result<Seq<MessageView<UniqPayloadView>>, Fatal>,
    ) -> bool {
        match input.payload {
            UniqPayloadView::Generate => if input.in_reply_to is Some {
                r is Ok && r->Ok_0.len() == 0 && post == pre
            } else if pre.id == usize::MAX {
                r == Err::<Seq<MessageView<UniqPayloadView>>, Fatal>(Fatal::IdsExhausted) && post
                    == pre
            } else {
                &&& r is Ok
                &&& r->Ok_0.len() == 1
                &&& r->Ok_0[0].payload == (UniqPayloadView::GenerateOk {
                    guid: guid_of(pre.node@, pre.id as nat + 1),
                })
                &&& post.node == pre.node
            },
            UniqPayloadView::GenerateOk { .. } => r is Ok && r->Ok_0.len() == 0 && post == pre,
        }
    }

    fn from_init(_state: (), init: Init) -> (r: Result<UniqNode, Fatal>) {
        Ok(UniqNode { node: init.node_id, id: 1 })
    }

    fn step(&mut self, input: Message<UniqPayload>) -> (r: Result<Vec<Message<UniqPayload>>, Fatal>) {
        if input.body.in_reply_to.is_some() {
            return Ok(Vec::new());
        }
        match input.body.payload {
            UniqPayload::Generate => {},
            UniqPayload::GenerateOk { .. } => {
                return Ok(Vec::new());
            },
        }
        if self.id == usize::MAX {
            return Err(Fatal::IdsExhausted);
        }
        let mut reply = input.into_reply(&mut self.id);
        let guid = UniqNode::guid(&self.node, self.id);
        reply.body.payload = UniqPayload::GenerateOk { guid };
        let mut out: Vec<Message<UniqPayload>> = Vec::new();
        out.push(reply);
        Ok(out)
    }
}

} // verus!
