use vstd::prelude::*;

use std::collections::VecDeque;

use crate::config::NodeAddr;
use crate::primitives::Message;

verus! {

/// What a node's handler tells one of its sessions to do.
#[derive(Debug)]
pub enum SessionCommand {
    Send(Message),
}

/// What a session reports to the node's handler.
#[derive(Debug)]
pub enum SessionEvent {
    ReceivedData(Message),
}

/// The messages a session holds for its peer until the connection can take
/// them, oldest first. It also keeps, as ghost state, every message it has
/// taken in and every message it has handed out.
pub struct Outbox {
    queued_messages: VecDeque<Message>,
    received: Ghost<Seq<Message>>,
    sent: Ghost<Seq<Message>>,
}

impl View for Outbox {
    type V = Seq<Message>;

    closed spec fn view(&self) -> Seq<Message> {
        self.queued_messages@
    }
}

impl Outbox {
    /// Every message pushed so far, in the order pushed.
    pub closed spec fn received(&self) -> Seq<Message> {
        self.received@
    }

    /// Every message popped so far, in the order popped.
    pub closed spec fn sent(&self) -> Seq<Message> {
        self.sent@
    }

    /// Nothing is lost, duplicated or reordered: what was handed out,
    /// followed by what is still queued, is exactly what was taken in.
    pub open spec fn wf(&self) -> bool {
        self.sent() + self@ == self.received()
    }

    pub fn new() -> (outbox: Self)
        ensures
            outbox.wf(),
            outbox@ == Seq::<Message>::empty(),
            outbox.received() == Seq::<Message>::empty(),
            outbox.sent() == Seq::<Message>::empty(),
    {
        let outbox = Outbox {
            queued_messages: VecDeque::new(),
            received: Ghost(Seq::empty()),
            sent: Ghost(Seq::empty()),
        };
        assert(outbox.sent() + outbox@ =~= outbox.received());
        outbox
    }

    /// Takes a command of the handler: a message to send joins the back of
    /// the queue.
    pub fn push_command(&mut self, command: SessionCommand)
        requires
            old(self).wf(),
        ensures
            final(self).wf(),
            final(self).sent() == old(self).sent(),
            match command {
                SessionCommand::Send(msg) => {
                    &&& final(self)@ == old(self)@.push(msg)
                    &&& final(self).received() == old(self).received().push(msg)
                },
            },
    {
        match command {
            SessionCommand::Send(msg) => {
                self.queued_messages.push_back(msg);
                proof {
                    self.received@ = self.received@.push(msg);
                    assert(self.sent() + self@ =~= self.received());
                }
            },
        }
    }

    /// The next message to hand to the connection: the oldest one queued,
    /// taken off the queue; `None` when the queue is empty.
    pub fn pop(&mut self) -> (msg: Option<Message>)
        requires
            old(self).wf(),
        ensures
            final(self).wf(),
            final(self).received() == old(self).received(),
            old(self)@.len() == 0 ==> msg is None && final(self)@ == old(self)@
                && final(self).sent() == old(self).sent(),
            old(self)@.len() > 0 ==> msg == Some(old(self)@[0]) && final(self)@ == old(
                self,
            )@.drop_first() && final(self).sent() == old(self).sent().push(old(self)@[0]),
    {
        let msg = self.queued_messages.pop_front();
        proof {
            if msg is Some {
                self.sent@ = self.sent@.push(msg->0);
                assert(self.sent() + self@ =~= self.received());
            }
        }
        msg
    }
}

/// Law: over any run of pushes and pops (a whole session poll among them),
/// the messages handed to the connection, followed by those still queued,
/// are exactly the messages the handler sent, in order; once the queue is
/// drained, every message sent was handed on, each once and in order.
pub proof fn lemma_outbox_conserves(outbox: Outbox)
    requires
        outbox.wf(),
    ensures
        outbox.sent() + outbox@ == outbox.received(),
        outbox@.len() == 0 ==> outbox.sent() == outbox.received(),
{
    if outbox@.len() == 0 {
        assert(outbox.sent() + outbox@ =~= outbox.sent());
    }
}

/// Law: the outbox is first in, first out. Pushing a message onto a
/// non-empty outbox does not change which message is popped next, and the
/// message pushed stays behind all those that were already waiting; pushed
/// onto an empty outbox it is the next one popped.
pub proof fn lemma_outbox_fifo(queued: Seq<Message>, msg: Message)
    ensures
        queued.len() > 0 ==> queued.push(msg)[0] == queued[0]
            && queued.push(msg).drop_first() == queued.drop_first().push(msg),
        queued.len() == 0 ==> queued.push(msg)[0] == msg
            && queued.push(msg).drop_first().len() == 0,
{
    if queued.len() > 0 {
        assert(queued.push(msg).drop_first() =~= queued.drop_first().push(msg));
    }
}

/// The second step of the opening handshake of a session: when the peer's
/// first message is its `Hello`, the address it listens on, which
/// establishes the session; any other message leaves the session unopened.
pub fn handshake_peer_addr(reply: Message) -> (addr: Option<NodeAddr>)
    ensures
        match reply {
            Message::Hello { local_addr } => addr == Some(local_addr),
            _ => addr is None,
        },
{
    match reply {
        Message::Hello { local_addr } => Some(local_addr),
        _ => None,
    }
}

/// The first step of the opening handshake: the `Hello` that announces the
/// address this node listens on.
pub fn hello(local_addr: NodeAddr) -> (msg: Message)
    ensures
        msg == (Message::Hello { local_addr }),
{
    Message::Hello { local_addr }
}

} // verus!
