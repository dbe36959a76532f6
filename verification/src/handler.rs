use vstd::prelude::*;

use crate::config::NodeAddr;
use crate::primitives::{AppendEntries, AppendResponse, Message, RequestVote, VoteResponse};
use crate::session::SessionEvent;

verus! {

/// What the node's handler reports: a message a peer sent, sorted by kind,
/// or a session that has completed its handshake.
#[derive(Debug)]
pub enum HandlerEvent {
    ReceivedEntries(AppendEntries),
    AppendResponse(AppendResponse),
    VoteResponse(VoteResponse),
    VoteRequest(RequestVote),
    NewSession { addr: NodeAddr },
}

/// A session event the handler can sort: every message but a `Hello`, which
/// only ever opens a session and never reaches the handler.
pub open spec fn sortable(event: SessionEvent) -> bool {
    !(event matches SessionEvent::ReceivedData(Message::Hello { .. }))
}

impl HandlerEvent {
    /// Sorts a message that a session received by its kind.
    pub fn from_session_event(event: SessionEvent) -> (sorted: Self)
        requires
            sortable(event),
        ensures
            match event {
                SessionEvent::ReceivedData(Message::AppendEntries(e)) => sorted
                    == HandlerEvent::ReceivedEntries(e),
                SessionEvent::ReceivedData(Message::RequestVote(r)) => sorted
                    == HandlerEvent::VoteRequest(r),
                SessionEvent::ReceivedData(Message::VoteResponse(v)) => sorted
                    == HandlerEvent::VoteResponse(v),
                SessionEvent::ReceivedData(Message::AppendResponse(a)) => sorted
                    == HandlerEvent::AppendResponse(a),
                SessionEvent::ReceivedData(Message::Hello { .. }) => false,
            },
    {
        match event {
            SessionEvent::ReceivedData(Message::AppendEntries(entries)) => {
                HandlerEvent::ReceivedEntries(entries)
            },
            SessionEvent::ReceivedData(Message::RequestVote(vote_request)) => {
                HandlerEvent::VoteRequest(vote_request)
            },
            SessionEvent::ReceivedData(Message::VoteResponse(vote_response)) => {
                HandlerEvent::VoteResponse(vote_response)
            },
            SessionEvent::ReceivedData(Message::AppendResponse(append_response)) => {
                HandlerEvent::AppendResponse(append_response)
            },
            SessionEvent::ReceivedData(Message::Hello { local_addr }) => {
                // ruled out by the precondition
                proof {
                    assert(false);
                }
                HandlerEvent::NewSession { addr: local_addr }
            },
        }
    }
}

} // verus!
