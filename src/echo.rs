//! A node that answers each `echo` with the same value.
use vstd::prelude::*;
use crate::json::{Json, entry_str, field, get, is_text, key};
use crate::message::{Init, InitView, Message, MessageView, Payload};
use crate::node::{Fatal, Node};

verus! {

#[derive(Debug, Clone)]
pub enum EchoPayload {
    Echo { echo: String },
    EchoOk { echo: String },
}

pub enum EchoPayloadView {
    Echo { echo: Seq<char> },
    EchoOk { echo: Seq<char> },
}

impl View for EchoPayload {
    type V = EchoPayloadView;

    open spec fn view(&self) -> EchoPayloadView {
        match self {
            EchoPayload::Echo { echo } => EchoPayloadView::Echo { echo: echo@ },
            EchoPayload::EchoOk { echo } => EchoPayloadView::EchoOk { echo: echo@ },
        }
    }
}

impl Payload for EchoPayload {
    /// `{"type": "echo", "echo": ..}` or `{"type": "echo_ok", "echo": ..}`.
    open spec fn spec_from_fields(obj: Seq<(String, Json)>) -> Option<EchoPayloadView> {
        match (field(obj, "type"@), field(obj, "echo"@)) {
            (Some(Json::Str(t)), Some(Json::Str(v))) => if t@ == "echo"@ {
                Some(EchoPayloadView::Echo { echo: v@ })
            } else if t@ == "echo_ok"@ {
                Some(EchoPayloadView::EchoOk { echo: v@ })
            } else {
                None
            },
            _ => None,
        }
    }

    open spec fn spec_wf(v: EchoPayloadView) -> bool {
        true
    }

    /// `type`, then `echo`.
    open spec fn spec_fields(v: EchoPayloadView, f: Seq<(String, Json)>) -> bool {
        &&& f.len() == 2
        &&& match v {
            EchoPayloadView::Echo { echo } => entry_str(f[0], "type"@, "echo"@) && entry_str(
                f[1],
                "echo"@,
                echo,
            ),
            EchoPayloadView::EchoOk { echo } => entry_str(f[0], "type"@, "echo_ok"@) && entry_str(
                f[1],
                "echo"@,
                echo,
            ),
        }
    }

    fn to_fields(&self) -> (r: Vec<(String, Json)>) {
        let mut r: Vec<(String, Json)> = Vec::new();
        match self {
            EchoPayload::Echo { echo } => {
                r.push((key("type"), Json::Str(key("echo"))));
                r.push((key("echo"), Json::Str(echo.clone())));
            },
            EchoPayload::EchoOk { echo } => {
                r.push((key("type"), Json::Str(key("echo_ok"))));
                r.push((key("echo"), Json::Str(echo.clone())));
            },
        }
        proof {
            reveal_strlit("type");
            reveal_strlit("echo");
            reveal_strlit("echo_ok");
            reveal_strlit("msg_id");
            reveal_strlit("in_reply_to");
            reveal_with_fuel(field, 3);
            assert("echo"@ != "echo_ok"@) by { assert("echo"@.len() != "echo_ok"@.len()); }
            assert("type"@ != "echo"@) by { assert("type"@[0] != "echo"@[0]); }
            assert forall|rest: Seq<(String, Json)>| #[trigger] Self::spec_from_fields(r@ + rest)
                == Some(self@) by {
                let o = r@ + rest;
                assert(o[0] == r@[0]);
                assert(o.drop_first()[0] == r@[1]);
            }
            assert forall|i: int| 0 <= i < r@.len() implies #[trigger] r@[i].0@ != "msg_id"@
                && r@[i].0@ != "in_reply_to"@ by {
                assert(r@[i].0@.len() != "msg_id"@.len());
                assert(r@[i].0@.len() != "in_reply_to"@.len());
            }
        }
        r
    }

    fn from_fields(obj: &Vec<(String, Json)>) -> (r: Option<EchoPayload>) {
        let (tag, value) = match (get(obj, "type"), get(obj, "echo")) {
            (Some(Json::Str(t)), Some(Json::Str(v))) => (t, v.clone()),
            _ => {
                return None;
            },
        };
        if is_text(tag, "echo") {
            Some(EchoPayload::Echo { echo: value })
        } else if is_text(tag, "echo_ok") {
            Some(EchoPayload::EchoOk { echo: value })
        } else {
            None
        }
    }
}

/// A node that returns each value it is sent.
#[derive(Debug, Clone)]
pub struct EchoNode {
    pub node: String,
    pub id: usize,
}

impl Node<(), EchoPayload> for EchoNode {
    open spec fn next_id(&self) -> nat {
        self.id as nat
    }

    /// A node named by the roster, whose first reply takes id 1.
    open spec fn spec_init(state: (), init: InitView, r: Result<EchoNode, Fatal>) -> bool {
        r is Ok && r->Ok_0.node@ == init.node_id && r->Ok_0.id == 1
    }

    /// `echo` gets one `echo_ok` with the same value; `echo_ok`, and any
    /// message that is itself a reply, gets nothing and changes nothing.
    open spec fn spec_step(
        pre: EchoNode,
        input: MessageView<EchoPayloadView>,
        post: EchoNode,
        r: Result<Seq<MessageView<EchoPayloadView>>, Fatal>,
    ) -> bool {
        match input.payload {
            EchoPayloadView::Echo { echo } => if input.in_reply_to is Some {
                r is Ok && r->Ok_0.len() == 0 && post == pre
            } else if pre.id == usize::MAX {
                r == Err::<Seq<MessageView<EchoPayloadView>>, Fatal>(Fatal::IdsExhausted) && post
                    == pre
            } else {
                &&& r is Ok
                &&& r->Ok_0.len() == 1
                &&& r->Ok_0[0].payload == (EchoPayloadView::EchoOk { echo })
                &&& post.node == pre.node
            },
            EchoPayloadView::EchoOk { .. } => r is Ok && r->Ok_0.len() == 0 && post == pre,
        }
    }

    fn from_init(_state: (), init: Init) -> (r: Result<EchoNode, Fatal>) {
        Ok(EchoNode { node: init.node_id, id: 1 })
    }

    fn step(&mut self, input: Message<EchoPayload>) -> (r: Result<Vec<Message<EchoPayload>>, Fatal>) {
        if input.body.in_reply_to.is_some() {
            return Ok(Vec::new());
        }
        match input.body.payload {
            EchoPayload::Echo { .. } => {},
            EchoPayload::EchoOk { .. } => {
                return Ok(Vec::new());
            },
        }
        if self.id == usize::MAX {
            return Err(Fatal::IdsExhausted);
        }
        let mut reply = input.into_reply(&mut self.id);
        let value = match reply.body.payload {
            EchoPayload::Echo { echo } => echo,
            EchoPayload::EchoOk { echo } => echo,
        };
        reply.body.payload = EchoPayload::EchoOk { echo: value };
        let mut out: Vec<Message<EchoPayload>> = Vec::new();
        out.push(reply);
        Ok(out)
    }
}

} // verus!
