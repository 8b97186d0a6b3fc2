//! The envelope model: messages, bodies, the handshake payload, and the wire
//! codec between messages and JSON objects.
use vstd::prelude::*;
use crate::json::{Json, entry_str, field, lacks, get, is_text, key, strs_of, strs_to_json, json_to_strs, lemma_field_append};

verus! {

/// One transmitted or received unit.
#[derive(Debug, Clone)]
pub struct Message<Payload> {
    pub src: String,
    pub dst: String,
    pub body: Body<Payload>,
}

/// Message metadata and the payload. On the wire the payload's fields stand
/// beside `msg_id` and `in_reply_to` in one object.
#[derive(Debug, Clone)]
pub struct Body<Payload> {
    pub id: Option<usize>,
    pub in_reply_to: Option<usize>,
    pub payload: Payload,
}

/// What a message is, as plain values.
pub struct MessageView<V> {
    pub src: Seq<char>,
    pub dst: Seq<char>,
    pub id: Option<usize>,
    pub in_reply_to: Option<usize>,
    pub payload: V,
}

impl<P: View> View for Message<P> {
    type V = MessageView<P::V>;

    open spec fn view(&self) -> MessageView<P::V> {
        MessageView {
            src: self.src@,
            dst: self.dst@,
            id: self.body.id,
            in_reply_to: self.body.in_reply_to,
            payload: self.body.payload@,
        }
    }
}

/// A line that does not spell a message of the expected payload type.
#[derive(Debug)]
pub struct DecodeError;

/// A payload type: a closed set of variants, told apart on the wire by the
/// `type` field.
pub trait Payload: Sized + View {
    /// The payload that the entries of a body object spell, if any.
    spec fn spec_from_fields(obj: Seq<(String, Json)>) -> Option<Self::V>;

    /// The payload can be written: a table in it has no repeated key.
    spec fn spec_wf(v: Self::V) -> bool;

    /// `f` are exactly the entries that the payload `v` is written as.
    spec fn spec_fields(v: Self::V, f: Seq<(String, Json)>) -> bool;

    /// The payload's entries, the `type` tag among them. Entries that follow
    /// them do not change what they spell.
    fn to_fields(&self) -> (r: Vec<(String, Json)>)
        requires
            Self::spec_wf(self@),
        ensures
            forall|rest: Seq<(String, Json)>| #[trigger] Self::spec_from_fields(r@ + rest)
                == Some(self@),
            Self::spec_fields(self@, r@),
            lacks(r@, "msg_id"@),
            lacks(r@, "in_reply_to"@),
    ;

    fn from_fields(obj: &Vec<(String, Json)>) -> (r: Option<Self>)
        ensures
            match r {
                Some(p) => Self::spec_from_fields(obj@) == Some(p@),
                None => Self::spec_from_fields(obj@) is None,
            },
    ;
}

/// What an optional id entry spells: absent or null is no id.
pub open spec fn spec_id(f: Option<Json>) -> Option<Option<usize>> {
    match f {
        None => Some(None),
        Some(Json::Null) => Some(None),
        Some(Json::Num(n)) => if n <= usize::MAX {
            Some(Some(n as usize))
        } else {
            None
        },
        _ => None,
    }
}

/// The message that a JSON value spells, if any:
/// `{"src": .., "dest": .., "body": {"msg_id": .., "in_reply_to": .., "type": .., ..}}`.
pub open spec fn spec_decode<P: Payload>(j: Json) -> Option<MessageView<P::V>> {
    match j {
        Json::Obj(o) => match (field(o@, "src"@), field(o@, "dest"@), field(o@, "body"@)) {
            (Some(Json::Str(s)), Some(Json::Str(d)), Some(Json::Obj(b))) => match (
                spec_id(field(b@, "msg_id"@)),
                spec_id(field(b@, "in_reply_to"@)),
                P::spec_from_fields(b@),
            ) {
                (Some(id), Some(irt), Some(p)) => Some(
                    MessageView { src: s@, dst: d@, id: id, in_reply_to: irt, payload: p },
                ),
                _ => None,
            },
            _ => None,
        },
        _ => None,
    }
}

/// The count of ids that a message carries.
pub open spec fn id_count<V>(m: MessageView<V>) -> nat {
    (if m.id is Some { 1nat } else { 0nat }) + (if m.in_reply_to is Some { 1nat } else { 0nat })
}

/// `e` is the entry `key: n`.
pub open spec fn entry_num(e: (String, Json), key: Seq<char>, n: usize) -> bool {
    e.0@ == key && e.1 == Json::Num(n as u64)
}

/// `t` are the id entries of `m`: `msg_id` then `in_reply_to`, each only
/// where it is present.
pub open spec fn id_entries<V>(t: Seq<(String, Json)>, m: MessageView<V>) -> bool {
    &&& t.len() == id_count(m)
    &&& match (m.id, m.in_reply_to) {
        (Some(a), Some(b)) => entry_num(t[0], "msg_id"@, a) && entry_num(t[1], "in_reply_to"@, b),
        (Some(a), None) => entry_num(t[0], "msg_id"@, a),
        (None, Some(b)) => entry_num(t[0], "in_reply_to"@, b),
        (None, None) => true,
    }
}

/// `b` is the flat body object of `m`: the payload's entries, then its ids.
pub open spec fn body_entries<P: Payload>(b: Seq<(String, Json)>, m: MessageView<P::V>) -> bool {
    &&& b.len() >= id_count(m)
    &&& P::spec_fields(m.payload, b.take(b.len() - id_count(m)))
    &&& id_entries(b.skip(b.len() - id_count(m)), m)
}

/// `j` is the object that `m` is written as: `src`, `dest`, then `body`.
pub open spec fn message_object<P: Payload>(j: Json, m: MessageView<P::V>) -> bool {
    match j {
        Json::Obj(o) => {
            &&& o.len() == 3
            &&& entry_str(o@[0], "src"@, m.src)
            &&& entry_str(o@[1], "dest"@, m.dst)
            &&& o@[2].0@ == "body"@
            &&& o@[2].1 matches Json::Obj(b) && body_entries::<P>(b@, m)
        },
        _ => false,
    }
}

fn id_to_json(id: usize) -> (r: Json)
    ensures
        r == Json::Num(id as u64),
{
    Json::Num(id as u64)
}

fn id_from_json(f: Option<&Json>) -> (r: Result<Option<usize>, DecodeError>)
    ensures
        match r {
            Ok(id) => spec_id(match f { Some(j) => Some(*j), None => None }) == Some(id),
            Err(_) => spec_id(match f { Some(j) => Some(*j), None => None }) is None,
        },
{
    match f {
        None => Ok(None),
        Some(Json::Null) => Ok(None),
        Some(Json::Num(n)) => if *n <= usize::MAX as u64 {
            Ok(Some(*n as usize))
        } else {
            Err(DecodeError)
        },
        _ => Err(DecodeError),
    }
}

impl<P: Payload> Message<P> {
    /// The JSON object that this message is sent as; it decodes back to the
    /// same message.
    pub fn encode(&self) -> (r: Json)
        requires
            P::spec_wf(self.body.payload@),
        ensures
            message_object::<P>(r, self@),
            spec_decode::<P>(r) == Some(self@),
    {
        let fields = self.body.payload.to_fields();
        let ghost pf = fields@;
        let mut body = fields;
        let mut tail: Vec<(String, Json)> = Vec::new();
        match self.body.id {
            Some(id) => tail.push((key("msg_id"), id_to_json(id))),
            None => {},
        }
        match self.body.in_reply_to {
            Some(irt) => tail.push((key("in_reply_to"), id_to_json(irt))),
            None => {},
        }
        let ghost tl = tail@;
        body.append(&mut tail);
        let mut obj: Vec<(String, Json)> = Vec::new();
        obj.push((key("src"), Json::Str(self.src.clone())));
        obj.push((key("dest"), Json::Str(self.dst.clone())));
        obj.push((key("body"), Json::Obj(body)));
        proof {
            reveal_strlit("src");
            reveal_strlit("dest");
            reveal_strlit("body");
            reveal_strlit("msg_id");
            reveal_strlit("in_reply_to");
            assert(body@ == pf + tl);
            assert(body@.take(body@.len() - id_count(self@)) =~= pf);
            assert(body@.skip(body@.len() - id_count(self@)) =~= tl);
            assert(P::spec_from_fields(pf + tl) == Some(self.body.payload@));
            lemma_field_append(pf, tl, "msg_id"@);
            lemma_field_append(pf, tl, "in_reply_to"@);
            let m = "msg_id"@;
            let t = "in_reply_to"@;
            assert(m != t) by { assert(m.len() != t.len()); }
            if tl.len() > 0 {
                assert(tl.drop_first().len() == 0 || tl.drop_first().drop_first().len() == 0);
                if tl.drop_first().len() > 0 {
                    assert(tl.drop_first()[0] == tl[1]);
                }
            }
            assert("src"@ != "dest"@) by { assert("src"@.len() != "dest"@.len()); }
            assert("src"@ != "body"@) by { assert("src"@.len() != "body"@.len()); }
            assert("dest"@ != "body"@) by { assert("dest"@[0] != "body"@[0]); }
            reveal_with_fuel(field, 4);
            assert(field(obj@, "src"@) == Some(obj@[0].1));
            assert(obj@.drop_first()[0] == obj@[1]);
            assert(field(obj@, "dest"@) == Some(obj@[1].1));
            assert(obj@.drop_first().drop_first()[0] == obj@[2]);
            assert(field(obj@, "body"@) == Some(obj@[2].1));
        }
        Json::Obj(obj)
    }

    /// The message that `j` spells, or `DecodeError` where it spells none.
    pub fn decode(j: &Json) -> (r: Result<Message<P>, DecodeError>)
        ensures
            match r {
                Ok(m) => spec_decode::<P>(*j) == Some(m@),
                Err(_) => spec_decode::<P>(*j) is None,
            },
    {
        let obj = match j {
            Json::Obj(o) => o,
            _ => {
                return Err(DecodeError);
            },
        };
        let src = match get(obj, "src") {
            Some(Json::Str(s)) => s.clone(),
            _ => {
                return Err(DecodeError);
            },
        };
        let dst = match get(obj, "dest") {
            Some(Json::Str(s)) => s.clone(),
            _ => {
                return Err(DecodeError);
            },
        };
        let body = match get(obj, "body") {
            Some(Json::Obj(b)) => b,
            _ => {
                return Err(DecodeError);
            },
        };
        let id = id_from_json(get(body, "msg_id"))?;
        let in_reply_to = id_from_json(get(body, "in_reply_to"))?;
        let payload = match P::from_fields(body) {
            Some(p) => p,
            None => {
                return Err(DecodeError);
            },
        };
        Ok(Message { src, dst, body: Body { id, in_reply_to, payload } })
    }
}

impl<P> Message<P> {
    /// A reply skeleton: source and destination swapped, `in_reply_to` set to
    /// this message's id, and the next id taken from `id`, which then moves on.
    pub fn into_reply(self, id: &mut usize) -> (r: Message<P>)
        requires
            *old(id) < usize::MAX,
        ensures
            r.src == self.dst,
            r.dst == self.src,
            r.body.id == Some(*old(id)),
            r.body.in_reply_to == self.body.id,
            r.body.payload == self.body.payload,
            *final(id) == *old(id) + 1,
    {
        let next = *id;
        *id = next + 1;
        Message {
            src: self.dst,
            dst: self.src,
            body: Body { id: Some(next), in_reply_to: self.body.id, payload: self.body.payload },
        }
    }
}

/// The identity of a node and the full roster of the run.
#[derive(Debug, Clone)]
pub struct Init {
    pub node_id: String,
    pub node_ids: Vec<String>,
}

pub struct InitView {
    pub node_id: Seq<char>,
    pub node_ids: Seq<Seq<char>>,
}

impl View for Init {
    type V = InitView;

    open spec fn view(&self) -> InitView {
        InitView { node_id: self.node_id@, node_ids: self.node_ids@.map_values(|s: String| s@) }
    }
}

/// The payloads of the handshake.
#[derive(Debug, Clone)]
pub enum InitPayload {
    Init(Init),
    InitOk,
}

pub enum InitPayloadView {
    Init(InitView),
    InitOk,
}

impl View for InitPayload {
    type V = InitPayloadView;

    open spec fn view(&self) -> InitPayloadView {
        match self {
            InitPayload::Init(i) => InitPayloadView::Init(i@),
            InitPayload::InitOk => InitPayloadView::InitOk,
        }
    }
}

impl Payload for InitPayload {
    /// `{"type": "init", "node_id": .., "node_ids": [..]}` or `{"type": "init_ok"}`.
    open spec fn spec_from_fields(obj: Seq<(String, Json)>) -> Option<InitPayloadView> {
        match field(obj, "type"@) {
            Some(Json::Str(t)) => if t@ == "init"@ {
                match (field(obj, "node_id"@), field(obj, "node_ids"@)) {
                    (Some(Json::Str(n)), Some(a)) => match strs_of(a) {
                        Some(ids) => Some(
                            InitPayloadView::Init(InitView { node_id: n@, node_ids: ids }),
                        ),
                        None => None,
                    },
                    _ => None,
                }
            } else if t@ == "init_ok"@ {
                Some(InitPayloadView::InitOk)
            } else {
                None
            },
            _ => None,
        }
    }

    open spec fn spec_wf(v: InitPayloadView) -> bool {
        true
    }

    /// `type` first, then the variant's fields.
    open spec fn spec_fields(v: InitPayloadView, f: Seq<(String, Json)>) -> bool {
        match v {
            InitPayloadView::Init(i) => {
                &&& f.len() == 3
                &&& entry_str(f[0], "type"@, "init"@)
                &&& entry_str(f[1], "node_id"@, i.node_id)
                &&& f[2].0@ == "node_ids"@
                &&& strs_of(f[2].1) == Some(i.node_ids)
            },
            InitPayloadView::InitOk => f.len() == 1 && entry_str(f[0], "type"@, "init_ok"@),
        }
    }

    fn to_fields(&self) -> (r: Vec<(String, Json)>) {
        let mut r: Vec<(String, Json)> = Vec::new();
        match self {
            InitPayload::Init(i) => {
                r.push((key("type"), Json::Str(key("init"))));
                r.push((key("node_id"), Json::Str(i.node_id.clone())));
                r.push((key("node_ids"), strs_to_json(&i.node_ids)));
            },
            InitPayload::InitOk => {
                r.push((key("type"), Json::Str(key("init_ok"))));
            },
        }
        proof {
            reveal_strlit("type");
            reveal_strlit("init");
            reveal_strlit("init_ok");
            reveal_strlit("node_id");
            reveal_strlit("node_ids");
            reveal_strlit("msg_id");
            reveal_strlit("in_reply_to");
            reveal_with_fuel(field, 4);
            assert("init"@ != "init_ok"@) by { assert("init"@.len() != "init_ok"@.len()); }
            assert("type"@ != "node_id"@) by { assert("type"@.len() != "node_id"@.len()); }
            assert("type"@ != "node_ids"@) by { assert("type"@.len() != "node_ids"@.len()); }
            assert("node_id"@ != "node_ids"@) by { assert("node_id"@.len() != "node_ids"@.len()); }
            assert forall|rest: Seq<(String, Json)>| #[trigger] Self::spec_from_fields(r@ + rest)
                == Some(self@) by {
                let o = r@ + rest;
                assert(o[0] == r@[0]);
                if r@.len() == 3 {
                    assert(o.drop_first()[0] == r@[1]);
                    assert(o.drop_first().drop_first()[0] == r@[2]);
                }
            }
            assert forall|i: int| 0 <= i < r@.len() implies #[trigger] r@[i].0@ != "msg_id"@
                && r@[i].0@ != "in_reply_to"@ by {
                assert(r@[i].0@.len() != "msg_id"@.len());
                assert(r@[i].0@.len() != "in_reply_to"@.len());
            }
        }
        r
    }

    fn from_fields(obj: &Vec<(String, Json)>) -> (r: Option<InitPayload>) {
        let tag = match get(obj, "type") {
            Some(Json::Str(t)) => t,
            _ => {
                return None;
            },
        };
        if is_text(tag, "init") {
            let node_id = match get(obj, "node_id") {
                Some(Json::Str(n)) => n.clone(),
                _ => {
                    return None;
                },
            };
            let node_ids = match get(obj, "node_ids") {
                Some(a) => match json_to_strs(a) {
                    Some(ids) => ids,
                    None => {
                        return None;
                    },
                },
                None => {
                    return None;
                },
            };
            Some(InitPayload::Init(Init { node_id, node_ids }))
        } else if is_text(tag, "init_ok") {
            Some(InitPayload::InitOk)
        } else {
            None
        }
    }
}

} // verus!
