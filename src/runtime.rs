//! The handshake and the dispatch state machine. The caller reads lines,
//! hands each one over as parsed JSON, and writes the JSON replies that come
//! back, in order, before it reads the next line.
use vstd::prelude::*;
use crate::json::Json;
use crate::message::{Body, Init, InitPayload, InitPayloadView, Message, MessageView, Payload, spec_decode};
use crate::node::{Fatal, Node, replies_follow, views};

verus! {

/// The `init_ok` reply of a node called `node_id` to the handshake `m`.
pub open spec fn init_reply(m: MessageView<InitPayloadView>, node_id: Seq<char>) -> MessageView<
    InitPayloadView,
> {
    MessageView { src: node_id, dst: m.src, id: Some(0), in_reply_to: m.id, payload: InitPayloadView::InitOk }
}

/// Takes the first message of a run: where it carries `init`, returns the
/// roster and the `init_ok` reply; else the run is over.
pub fn handshake(init_msg: Message<InitPayload>) -> (r: Result<(Init, Message<InitPayload>), Fatal>)
    ensures
        match init_msg.body.payload {
            InitPayload::Init(i) => r is Ok && r->Ok_0.0@ == i@ && r->Ok_0.1@ == init_reply(
                init_msg@,
                i.node_id@,
            ),
            InitPayload::InitOk => r matches Err(Fatal::NotInit),
        },
{
    let Message { src, dst: _, body } = init_msg;
    match body.payload {
        InitPayload::Init(init) => {
            let reply = Message {
                src: init.node_id.clone(),
                dst: src,
                body: Body { id: Some(0), in_reply_to: body.id, payload: InitPayload::InitOk },
            };
            Ok((init, reply))
        },
        InitPayload::InitOk => Err(Fatal::NotInit),
    }
}

/// Where a run stands.
#[derive(Debug)]
pub enum Phase<S, N> {
    /// Waiting for the handshake; holds what the handler is built with.
    Initializing(S),
    /// Handing each message to the handler.
    Running(N),
    /// A fatal condition ended the run.
    Terminated,
}

/// Each of `out` spells a message of payload type `P`.
pub open spec fn all_decode<P: Payload>(out: Seq<Json>) -> bool {
    forall|i: int| 0 <= i < out.len() ==> (#[trigger] spec_decode::<P>(out[i])) is Some
}

/// The messages that `out` spell.
pub open spec fn decode_all<P: Payload>(out: Seq<Json>) -> Seq<MessageView<P::V>> {
    out.map_values(|j: Json| spec_decode::<P>(j)->Some_0)
}

/// The JSON forms of `replies`, in order.
pub fn encode_all<P: Payload>(replies: &Vec<Message<P>>) -> (r: Vec<Json>)
    requires
        forall|i: int| 0 <= i < replies@.len() ==> P::spec_wf(#[trigger] replies@[i].body.payload@),
    ensures
        all_decode::<P>(r@),
        decode_all::<P>(r@) == views(replies@),
{
    let mut out: Vec<Json> = Vec::new();
    let mut i: usize = 0;
    while i < replies.len()
        invariant
            0 <= i <= replies.len(),
            out.len() == i,
            forall|k: int| 0 <= k < replies@.len() ==> P::spec_wf(#[trigger] replies@[k].body.payload@),
            forall|k: int|
                0 <= k < i ==> spec_decode::<P>(#[trigger] out@[k]) == Some(replies@[k]@),
        decreases replies.len() - i,
    {
        out.push(replies[i].encode());
        i = i + 1;
    }
    assert(decode_all::<P>(out@) =~= views(replies@));
    out
}

/// The message that a line spells, where it was JSON at all.
pub open spec fn line_decode<P: Payload>(line: Option<Json>) -> Option<MessageView<P::V>> {
    match line {
        Some(j) => spec_decode::<P>(j),
        None => None,
    }
}

/// The dispatch loop's state.
#[derive(Debug)]
pub struct Runtime<S, N> {
    pub phase: Phase<S, N>,
}

impl<S, N> Runtime<S, N> {
    pub fn new(state: S) -> (r: Runtime<S, N>)
        ensures
            r.phase matches Phase::Initializing(s) && s == state,
    {
        Runtime { phase: Phase::Initializing(state) }
    }

    /// Takes one input line, `None` where it was not JSON text, and returns
    /// the replies to write before the next line is read. An error ends the
    /// run.
    pub fn on_line<P: Payload>(&mut self, line: Option<Json>) -> (r: Result<Vec<Json>, Fatal>) where
        N: Node<S, P>,

        requires
            !(old(self).phase is Terminated),
        ensures
            r is Err <==> final(self).phase is Terminated,
            old(self).phase is Initializing ==> match line_decode::<InitPayload>(line) {
                None => r matches Err(Fatal::Decode),
                Some(m) => match m.payload {
                    InitPayloadView::InitOk => r matches Err(Fatal::NotInit),
                    InitPayloadView::Init(i) => match r {
                        Ok(out) => {
                            &&& final(self).phase is Running
                            &&& N::spec_init(
                                old(self).phase->Initializing_0,
                                i,
                                Ok(final(self).phase->Running_0),
                            )
                            &&& all_decode::<InitPayload>(out@)
                            &&& decode_all::<InitPayload>(out@) == seq![init_reply(m, i.node_id)]
                        },
                        Err(e) => N::spec_init(old(self).phase->Initializing_0, i, Err(e)),
                    },
                },
            },
            old(self).phase is Running ==> match line_decode::<P>(line) {
                None => r matches Err(Fatal::Decode),
                Some(m) => match r {
                    Ok(out) => {
                        &&& final(self).phase is Running
                        &&& all_decode::<P>(out@)
                        &&& N::spec_step(
                            old(self).phase->Running_0,
                            m,
                            final(self).phase->Running_0,
                            Ok(decode_all::<P>(out@)),
                        )
                        &&& replies_follow(
                            m,
                            decode_all::<P>(out@),
                            old(self).phase->Running_0.next_id(),
                            final(self).phase->Running_0.next_id(),
                        )
                    },
                    Err(e) => exists|post: N|
                        N::spec_step(old(self).phase->Running_0, m, post, Err(e)),
                },
            },
    {
        let mut phase = Phase::Terminated;
        std::mem::swap(&mut self.phase, &mut phase);
        match phase {
            Phase::Initializing(state) => {
                let j = match line {
                    Some(j) => j,
                    None => {
                        return Err(Fatal::Decode);
                    },
                };
                let msg = match Message::<InitPayload>::decode(&j) {
                    Ok(m) => m,
                    Err(_) => {
                        return Err(Fatal::Decode);
                    },
                };
                let (init, reply) = match handshake(msg) {
                    Ok(x) => x,
                    Err(e) => {
                        return Err(e);
                    },
                };
                let node = match N::from_init(state, init) {
                    Ok(n) => n,
                    Err(e) => {
                        return Err(e);
                    },
                };
                self.phase = Phase::Running(node);
                let mut out: Vec<Json> = Vec::new();
                out.push(reply.encode());
                assert(decode_all::<InitPayload>(out@) =~= seq![reply@]);
                Ok(out)
            },
            Phase::Running(mut node) => {
                let j = match line {
                    Some(j) => j,
                    None => {
                        return Err(Fatal::Decode);
                    },
                };
                let msg = match Message::<P>::decode(&j) {
                    Ok(m) => m,
                    Err(_) => {
                        return Err(Fatal::Decode);
                    },
                };
                let ghost pre = node;
                let ghost input = msg@;
                let replies = match node.step(msg) {
                    Ok(rs) => rs,
                    Err(e) => {
                        assert(N::spec_step(pre, input, node, Err(e)));
                        return Err(e);
                    },
                };
                let out = encode_all(&replies);
                self.phase = Phase::Running(node);
                Ok(out)
            },
            Phase::Terminated => Err(Fatal::Decode),
        }
    }

    /// The end of the input: a clean end once the handshake is done.
    pub fn on_end(&self) -> (r: Result<(), Fatal>)
        ensures
            r is Ok <==> self.phase is Running,
            r is Err ==> r matches Err(Fatal::NoInput),
    {
        match self.phase {
            Phase::Running(_) => Ok(()),
            _ => Err(Fatal::NoInput),
        }
    }
}

} // verus!
