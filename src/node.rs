//! The handler interface: what every node's `step` promises about its
//! replies and its message-id counter.
use vstd::prelude::*;
use crate::message::{Init, InitView, Message, MessageView, Payload};

verus! {

/// Conditions that end a run.
#[derive(Debug, Clone, Copy, PartialEq, Eq)]
pub enum Fatal {
    /// The input ended before the handshake.
    NoInput,
    /// A line did not spell a message of the expected payload type.
    Decode,
    /// The first message did not carry the `init` payload.
    NotInit,
    /// The handler could not be built from the handshake.
    InitFailed,
    /// The handler has no message id left to assign.
    IdsExhausted,
}

/// `out` are the replies to `input`, in order: each goes back to the sender,
/// answers the input's id, and carries the next id of the counter, which
/// moves from `from` to `to`.
pub open spec fn replies_follow<V>(
    input: MessageView<V>,
    out: Seq<MessageView<V>>,
    from: nat,
    to: nat,
) -> bool {
    &&& to == from + out.len()
    &&& forall|i: int|
        0 <= i < out.len() ==> {
            &&& #[trigger] out[i].src == input.dst
            &&& out[i].dst == input.src
            &&& out[i].in_reply_to == input.id
            &&& out[i].id is Some
            &&& out[i].id->Some_0 == from + i
        }
}

/// The views of a sequence of messages.
pub open spec fn views<P: View>(ms: Seq<Message<P>>) -> Seq<MessageView<P::V>> {
    ms.map_values(|m: Message<P>| m@)
}

/// The views of a step's result.
pub open spec fn result_views<P: View>(r: Result<Vec<Message<P>>, Fatal>) -> Result<
    Seq<MessageView<P::V>>,
    Fatal,
> {
    match r {
        Ok(v) => Ok(views(v@)),
        Err(e) => Err(e),
    }
}

/// Node logic driven by the runtime: built once from the handshake, then
/// handed each later message in turn.
pub trait Node<S, P: Payload>: Sized {
    /// The id that the node's next reply will carry.
    spec fn next_id(&self) -> nat;

    /// What building a node from `state` and the roster `init` gives.
    spec fn spec_init(state: S, init: InitView, r: Result<Self, Fatal>) -> bool;

    /// What one step from `pre` on `input` does: the node becomes `post`
    /// and `r` holds the replies, or the error that ends the run.
    spec fn spec_step(
        pre: Self,
        input: MessageView<P::V>,
        post: Self,
        r: Result<Seq<MessageView<P::V>>, Fatal>,
    ) -> bool;

    fn from_init(state: S, init: Init) -> (r: Result<Self, Fatal>)
        ensures
            Self::spec_init(state, init@, r),
    ;

    /// Handles one message and returns its replies, to be written in order.
    /// A message that is itself a reply gets none and changes nothing.
    fn step(&mut self, input: Message<P>) -> (r: Result<Vec<Message<P>>, Fatal>)
        ensures
            Self::spec_step(*old(self), input@, *final(self), result_views(r)),
            r is Ok ==> forall|i: int|
                0 <= i < r->Ok_0@.len() ==> P::spec_wf(#[trigger] r->Ok_0@[i].body.payload@),
            input.body.in_reply_to is Some ==> r is Ok && r->Ok_0@.len() == 0 && *final(self)
                == *old(self),
            final(self).next_id() >= old(self).next_id(),
            r is Ok ==> replies_follow(
                input@,
                views(r->Ok_0@),
                old(self).next_id(),
                final(self).next_id(),
            ),
    ;
}

/// Over two steps in a row, the ids of all replies strictly increase.
pub proof fn lemma_ids_increase<V>(
    in1: MessageView<V>,
    out1: Seq<MessageView<V>>,
    in2: MessageView<V>,
    out2: Seq<MessageView<V>>,
    a: nat,
    b: nat,
    c: nat,
)
    requires
        replies_follow(in1, out1, a, b),
        replies_follow(in2, out2, b, c),
    ensures
        forall|i: int, j: int|
            0 <= i < j < out1.len() + out2.len() ==> (#[trigger] (out1 + out2)[i]).id->Some_0
                < (#[trigger] (out1 + out2)[j]).id->Some_0,
{
    assert forall|i: int, j: int|
        0 <= i < j < out1.len() + out2.len() implies (#[trigger] (out1 + out2)[i]).id->Some_0
        < (#[trigger] (out1 + out2)[j]).id->Some_0 by {
        let all = out1 + out2;
        if i < out1.len() {
            assert(all[i] == out1[i]);
            assert(out1[i].src == in1.dst);
        } else {
            assert(all[i] == out2[i - out1.len()]);
            assert(out2[i - out1.len()].src == in2.dst);
        }
        if j < out1.len() {
            assert(all[j] == out1[j]);
            assert(out1[j].src == in1.dst);
        } else {
            assert(all[j] == out2[j - out1.len()]);
            assert(out2[j - out1.len()].src == in2.dst);
        }
    }
}

} // verus!
