use vstd::prelude::*;

use crate::config::NodeAddr;

verus! {

/// An operation on the replicated key-value store.
#[derive(Debug, Clone, PartialEq, Eq)]
pub enum Command {
    Put { key: String, value: String },
    Get { key: String },
}

/// One entry of the replicated log.
#[derive(Debug, Clone, PartialEq, Eq)]
pub struct LogEntry {
    /// Position in the log
    pub index: usize,
    /// Term when entry was created
    pub term: u64,
    /// The operation to apply
    pub command: Command,
}

impl LogEntry {
    pub fn term(&self) -> (term: u64)
        ensures
            term == self.term,
    {
        self.term
    }
}

/// A leader's request to append entries; with no entries it is a heartbeat.
#[derive(Debug, Clone, PartialEq, Eq)]
pub struct AppendEntries {
    /// Leader's term
    pub term: u64,
    /// Leader's ID
    pub leader_id: u32,
    /// Index of log entry before new ones
    pub prev_log_index: usize,
    /// Term of prev_log_index
    pub prev_log_term: u64,
    /// New entries to append (empty for heartbeat)
    pub entries: Vec<LogEntry>,
    /// Leader's commit index
    pub leader_commit: usize,
}

/// The three roles of a Raft node.
#[derive(Debug, Clone, Copy, PartialEq, Eq, Structural)]
pub enum Role {
    Leader,
    Follower,
    Candidate,
}

/// A candidate's request for a vote.
#[derive(Debug, Clone, Copy, PartialEq, Eq, Structural)]
pub struct RequestVote {
    /// Candidate's term
    pub term: u64,
    /// Candidate's ID
    pub candidate_id: u32,
    /// Index of candidate's last log entry
    pub last_log_index: usize,
    /// Term of candidate's last log entry
    pub last_log_term: u64,
}

/// The answer to a `RequestVote`.
#[derive(Debug, Clone, Copy, PartialEq, Eq, Structural)]
pub struct VoteResponse {
    /// Receiver's current term
    pub term: u64,
    /// Whether the vote was granted
    pub vote_granted: bool,
}

impl VoteResponse {
    pub fn new(term: u64, vote_granted: bool) -> (response: Self)
        ensures
            response.term == term,
            response.vote_granted == vote_granted,
    {
        VoteResponse { term, vote_granted }
    }
}

/// The answer to an `AppendEntries`.
#[derive(Debug, Clone, Copy, PartialEq, Eq, Structural)]
pub struct AppendResponse {
    pub term: u64,
    pub success: bool,
}

/// Everything two nodes say to each other.
#[derive(Debug, Clone, PartialEq, Eq)]
pub enum Message {
    AppendEntries(AppendEntries),
    AppendResponse(AppendResponse),
    RequestVote(RequestVote),
    VoteResponse(VoteResponse),
    /// The first message of a session: the sender's listening address.
    Hello { local_addr: NodeAddr },
}

} // verus!
