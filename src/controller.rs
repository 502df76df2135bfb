//! Handles through which backends queue messages to the application and ask the
//! host server to stop.
use crate::wire::{push_all, push_u32_be, u32_be_bytes};
use vstd::prelude::*;

verus! {

/// Reply-to value of a message that answers no earlier message.
pub const UNSOLICITED: u32 = 0xFFFF_FFFF;

/// Message on the host server's control channel.
#[derive(Clone, Copy, Debug, PartialEq, Eq, Structural)]
pub enum ControlMessage {
    /// Stop the server.
    Stop,
}

/// Message queued for the application.
#[derive(Clone, Debug)]
pub enum AppMessage {
    /// Send a message to the application: (message id, reply-to id, payload).
    Send(u32, u32, Vec<u8>),
}

impl AppMessage {
    /// The message id.
    pub open spec fn id(&self) -> u32 {
        match self {
            AppMessage::Send(id, _, _) => *id,
        }
    }

    /// The id of the message this one answers, or [`UNSOLICITED`].
    pub open spec fn reply_to(&self) -> u32 {
        match self {
            AppMessage::Send(_, reply_to, _) => *reply_to,
        }
    }

    /// The payload bytes.
    pub open spec fn payload(&self) -> Seq<u8> {
        match self {
            AppMessage::Send(_, _, data) => data@,
        }
    }

    /// The frame written for this message: id, reply-to id and four reserved zero
    /// bytes, all big-endian, then the payload.
    pub open spec fn frame_spec(&self) -> Seq<u8> {
        u32_be_bytes(self.id()) + u32_be_bytes(self.reply_to()) + u32_be_bytes(0)
            + self.payload()
    }

    /// Serializes this message as an outbound frame.
    pub fn to_frame(&self) -> (r: Vec<u8>)
        ensures
            r@ == self.frame_spec(),
    {
        match self {
            AppMessage::Send(id, reply_to, data) => {
                let mut r: Vec<u8> = Vec::new();
                push_u32_be(&mut r, *id);
                push_u32_be(&mut r, *reply_to);
                push_u32_be(&mut r, 0);
                push_all(&mut r, data.as_slice());
                r
            },
        }
    }
}

/// Issues the ids of the messages that one connection sends to the application.
/// Every handle of a connection shares one controller, so ids never repeat.
#[derive(Debug)]
pub struct AppController {
    next_message_id: u32,
}

/// `m` was issued by a controller in state `pre`, which then went to `post`.
pub open spec fn issued(pre: AppController, m: AppMessage, post: AppController) -> bool {
    &&& m.id() == pre.next_id()
    &&& post.next_id() == pre.next_id() + 1
}

impl AppController {
    /// The id that the next message gets.
    pub closed spec fn next_id(&self) -> u32 {
        self.next_message_id
    }

    /// A controller whose first message gets id 0.
    pub fn create() -> (r: AppController)
        ensures
            r.next_id() == 0,
    {
        AppController { next_message_id: 0 }
    }

    /// Whether another id can be issued; the last `u32` stays unused, since it is the
    /// unsolicited reply-to value.
    pub fn can_issue(&self) -> (r: bool)
        ensures
            r == (self.next_id() < UNSOLICITED),
    {
        self.next_message_id < UNSOLICITED
    }

    /// Takes the next id.
    fn issue(&mut self) -> (r: u32)
        requires
            old(self).next_id() < UNSOLICITED,
        ensures
            r == old(self).next_id(),
            final(self).next_id() == old(self).next_id() + 1,
    {
        let id = self.next_message_id;
        self.next_message_id = id + 1;
        id
    }

    /// Queues `data` as a message of its own, with the next id; `None`, with the
    /// controller unchanged, once the ids are used up.
    pub fn send(&mut self, data: Vec<u8>) -> (r: Option<AppMessage>)
        ensures
            r is Some <==> old(self).next_id() < UNSOLICITED,
            r matches Some(m) ==> issued(*old(self), m, *final(self)) && m.reply_to()
                == UNSOLICITED && m.payload() == data@,
            r is None ==> final(self).next_id() == old(self).next_id(),
    {
        if !self.can_issue() {
            return None;
        }
        let id = self.issue();
        Some(AppMessage::Send(id, UNSOLICITED, data))
    }

    /// Queues `data` as the answer to message `id`, with the next id; `None`, with
    /// the controller unchanged, once the ids are used up.
    pub fn reply(&mut self, id: u32, data: Vec<u8>) -> (r: Option<AppMessage>)
        ensures
            r is Some <==> old(self).next_id() < UNSOLICITED,
            r matches Some(m) ==> issued(*old(self), m, *final(self)) && m.reply_to() == id
                && m.payload() == data@,
            r is None ==> final(self).next_id() == old(self).next_id(),
    {
        if !self.can_issue() {
            return None;
        }
        let msg_id = self.issue();
        Some(AppMessage::Send(msg_id, id, data))
    }
}

proof fn lemma_issued_run_offsets(states: Seq<AppController>, msgs: Seq<AppMessage>, k: int)
    requires
        states.len() == msgs.len() + 1,
        forall|i: int| 0 <= i < msgs.len() ==> issued(#[trigger] states[i], msgs[i], states[i + 1]),
        0 <= k < states.len(),
    ensures
        states[k].next_id() == states[0].next_id() + k,
    decreases k,
{
    if k > 0 {
        lemma_issued_run_offsets(states, msgs, k - 1);
        assert(issued(states[k - 1], msgs[k - 1], states[k]));
    }
}

/// Ids issued by successive `send` and `reply` calls on one controller strictly
/// increase, so no id is issued twice.
pub proof fn lemma_issued_ids_increase(states: Seq<AppController>, msgs: Seq<AppMessage>)
    requires
        states.len() == msgs.len() + 1,
        forall|i: int| 0 <= i < msgs.len() ==> issued(#[trigger] states[i], msgs[i], states[i + 1]),
    ensures
        forall|i: int, j: int| 0 <= i < j < msgs.len() ==> msgs[i].id() < msgs[j].id(),
{
    assert forall|i: int, j: int| 0 <= i < j < msgs.len() implies msgs[i].id() < msgs[j].id() by {
        lemma_issued_run_offsets(states, msgs, i);
        lemma_issued_run_offsets(states, msgs, j);
        assert(issued(states[i], msgs[i], states[i + 1]));
        assert(issued(states[j], msgs[j], states[j + 1]));
    }
}

} // verus!
