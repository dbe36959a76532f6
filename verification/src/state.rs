use vstd::prelude::*;

use std::collections::HashMap;

use crate::config::Config;
use crate::primitives::{AppendEntries, LogEntry, Message, RequestVote, Role, VoteResponse};
use crate::timeout::{valid_duration, ResetSignal, TimerPoll, Timeout};

verus! {

/// The abstract state of a node: its fields, with the election timer taken
/// as its mode and its armed duration.
pub struct NodeView {
    pub id: u32,
    pub cluster_size: u32,
    pub current_leader: Option<u32>,
    pub role: Role,
    pub current_term: u64,
    pub voted_for: Option<u32>,
    pub log: Seq<LogEntry>,
    pub commit_index: usize,
    pub last_applied: usize,
    pub kv_store: Map<String, String>,
    pub timer_is_leader: bool,
    pub timer_ms: u64,
    pub vote_count: u32,
}

/// The term of the last entry of `log`, or 0 for an empty log.
pub open spec fn last_term_of(log: Seq<LogEntry>) -> u64 {
    if log.len() == 0 {
        0
    } else {
        log.last().term
    }
}

impl NodeView {
    /// Votes counted in the current election never reach a strict majority
    /// without the node having become leader (and the count reset).
    pub open spec fn wf(self) -> bool {
        self.vote_count <= self.cluster_size / 2
    }

    pub open spec fn last_log_term(self) -> u64 {
        last_term_of(self.log)
    }

    pub open spec fn last_log_index(self) -> int {
        self.log.len() as int
    }

    /// A candidate's log, given by its last term and length, is at least as
    /// up to date as this node's.
    pub open spec fn log_up_to_date(self, last_log_term: u64, last_log_index: usize) -> bool {
        ||| last_log_term > self.last_log_term()
        ||| (last_log_term == self.last_log_term() && last_log_index >= self.last_log_index())
    }

    /// The node may vote for `candidate` in its current term: it has not voted
    /// yet, or has voted for that same candidate.
    pub open spec fn may_vote_for(self, candidate: u32) -> bool {
        self.voted_for is None || self.voted_for == Some(candidate)
    }

    /// The state after becoming leader of the current term.
    pub open spec fn as_leader(self) -> NodeView {
        NodeView {
            role: Role::Leader,
            timer_is_leader: true,
            current_leader: Some(self.id),
            vote_count: 0,
            ..self
        }
    }
}

/// How a node answers `AppendEntries`: the next state, and whether the
/// sender is accepted as leader (so that the election timer restarts).
pub open spec fn entries_next(s: NodeView, e: AppendEntries) -> (NodeView, bool) {
    if e.term < s.current_term {
        // a stale leader
        (s, false)
    } else if e.term > s.current_term {
        (
            NodeView {
                current_term: e.term,
                role: Role::Follower,
                current_leader: Some(e.leader_id),
                timer_is_leader: false,
                ..s
            },
            true,
        )
    } else if s.current_leader is None {
        (NodeView { current_leader: Some(e.leader_id), ..s }, true)
    } else if s.current_leader == Some(e.leader_id) {
        (s, true)
    } else {
        (s, false)
    }
}

/// How a node answers `RequestVote`: the next state and the response it sends.
pub open spec fn vote_request_next(s: NodeView, r: RequestVote) -> (NodeView, VoteResponse) {
    if r.term < s.current_term {
        (s, VoteResponse { term: s.current_term, vote_granted: false })
    } else {
        let s1 = if r.term > s.current_term {
            NodeView { current_term: r.term, voted_for: None, ..s }
        } else {
            s
        };
        let granted = s1.may_vote_for(r.candidate_id) && s1.log_up_to_date(
            r.last_log_term,
            r.last_log_index,
        );
        let s2 = if granted {
            NodeView { voted_for: Some(r.candidate_id), ..s1 }
        } else {
            s1
        };
        (s2, VoteResponse { term: s2.current_term, vote_granted: granted })
    }
}

/// A refused vote of the node's own term reaching a candidate: the one input
/// on which the node stops (it does not expect refusals).
pub open spec fn refused_in_own_term(s: NodeView, r: VoteResponse) -> bool {
    s.role == Role::Candidate && r.term == s.current_term && !r.vote_granted
}

/// How a node takes a `VoteResponse`: the next state, and whether the election
/// timer restarts (the node stepped down, or won the election).
pub open spec fn vote_response_next(s: NodeView, r: VoteResponse) -> (NodeView, bool) {
    if s.role != Role::Candidate {
        (s, false)
    } else if r.term > s.current_term {
        (
            NodeView {
                current_term: r.term,
                role: Role::Follower,
                voted_for: None,
                current_leader: None,
                vote_count: 0,
                ..s
            },
            true,
        )
    } else if r.term < s.current_term {
        (s, false)
    } else if s.vote_count + 1 > s.cluster_size / 2 {
        (s.as_leader(), true)
    } else {
        (NodeView { vote_count: (s.vote_count + 1) as u32, ..s }, false)
    }
}

/// Law: a node grants at most one vote per term. Once it has granted its
/// vote to one candidate, a request of the same term from another candidate
/// is refused.
pub proof fn lemma_one_vote_per_term(s: NodeView, r1: RequestVote, r2: RequestVote)
    requires
        r1.term == r2.term,
        r1.candidate_id != r2.candidate_id,
    ensures
        !(vote_request_next(s, r1).1.vote_granted && vote_request_next(
            vote_request_next(s, r1).0,
            r2,
        ).1.vote_granted),
{
}

/// Law: a granted vote is answered in the candidate's own term, is recorded
/// as the node's vote, and went to a candidate whose log is at least as up to
/// date as the node's.
pub proof fn lemma_granted_vote(s: NodeView, r: RequestVote)
    requires
        vote_request_next(s, r).1.vote_granted,
    ensures
        vote_request_next(s, r).1.term == r.term,
        vote_request_next(s, r).0.current_term == r.term,
        vote_request_next(s, r).0.voted_for == Some(r.candidate_id),
        s.log_up_to_date(r.last_log_term, r.last_log_index),
        vote_request_next(s, r).0.log == s.log,
{
}

/// Law: the vote is granted exactly when the request is not of an older term,
/// the node has not voted for another candidate in the request's term (a newer
/// term forgets the old vote), and the candidate's log is at least as up to
/// date: its last term is newer than the node's, or equal with a length not
/// shorter. A granted vote is recorded and answered in the request's term.
pub proof fn lemma_vote_granted_iff(s: NodeView, r: RequestVote)
    ensures
        vote_request_next(s, r).1.vote_granted <==> {
            &&& r.term >= s.current_term
            &&& (r.term > s.current_term || s.voted_for is None || s.voted_for == Some(
                r.candidate_id,
            ))
            &&& (r.last_log_term > last_term_of(s.log) || (r.last_log_term == last_term_of(
                s.log,
            ) && r.last_log_index >= s.log.len()))
        },
        vote_request_next(s, r).1.vote_granted ==> {
            &&& vote_request_next(s, r).0.voted_for == Some(r.candidate_id)
            &&& vote_request_next(s, r).0.current_term == r.term
            &&& vote_request_next(s, r).1.term == r.term
        },
        !vote_request_next(s, r).1.vote_granted && r.term > s.current_term
            ==> vote_request_next(s, r).0.voted_for is None,
        !vote_request_next(s, r).1.vote_granted && r.term <= s.current_term
            ==> vote_request_next(s, r).0.voted_for == s.voted_for,
{
}

/// Law: a candidate that receives a granted vote of its own term counts it;
/// when the count reaches a strict majority of the cluster (more than half),
/// it becomes the leader of that term at once, with its timer in heartbeat
/// mode, and asks for its timer to restart.
pub proof fn lemma_granted_vote_counted(s: NodeView, v: VoteResponse)
    requires
        s.role == Role::Candidate,
        v.term == s.current_term,
        v.vote_granted,
    ensures
        s.vote_count + 1 > s.cluster_size / 2 ==> {
            &&& vote_response_next(s, v).1
            &&& vote_response_next(s, v).0.role == Role::Leader
            &&& vote_response_next(s, v).0.current_leader == Some(s.id)
            &&& vote_response_next(s, v).0.timer_is_leader
            &&& vote_response_next(s, v).0.vote_count == 0
            &&& vote_response_next(s, v).0.current_term == s.current_term
        },
        s.vote_count + 1 <= s.cluster_size / 2 ==> {
            &&& !vote_response_next(s, v).1
            &&& vote_response_next(s, v).0.role == Role::Candidate
            &&& vote_response_next(s, v).0.vote_count == s.vote_count + 1
            &&& vote_response_next(s, v).0.current_term == s.current_term
        },
{
}

/// Law: a node that hears from a leader of a newer term, whatever its role,
/// adopts the term, steps down to follower with its timer out of heartbeat
/// mode, follows that leader and restarts its timer.
pub proof fn lemma_newer_leader_followed(s: NodeView, e: AppendEntries)
    requires
        e.term > s.current_term,
    ensures
        entries_next(s, e).1,
        entries_next(s, e).0.current_term == e.term,
        entries_next(s, e).0.role == Role::Follower,
        !entries_next(s, e).0.timer_is_leader,
        entries_next(s, e).0.current_leader == Some(e.leader_id),
        entries_next(s, e).0.voted_for == s.voted_for,
        entries_next(s, e).0.log == s.log,
{
}

/// Law: messages of an older term change nothing. A stale leader is refused,
/// a stale candidate is refused with the node's own term, and a stale vote is
/// not counted.
pub proof fn lemma_stale_terms_ignored(
    s: NodeView,
    e: AppendEntries,
    r: RequestVote,
    v: VoteResponse,
)
    ensures
        e.term < s.current_term ==> entries_next(s, e) == (s, false),
        r.term < s.current_term ==> vote_request_next(s, r) == (
            s,
            VoteResponse { term: s.current_term, vote_granted: false },
        ),
        v.term < s.current_term ==> vote_response_next(s, v) == (s, false),
{
}

/// Law: the answer to a vote request always carries the node's term after
/// the request, which is never older than the request's own term or the
/// node's term before.
pub proof fn lemma_vote_response_term(s: NodeView, r: RequestVote)
    ensures
        vote_request_next(s, r).1.term == vote_request_next(s, r).0.current_term,
        vote_request_next(s, r).0.current_term >= r.term,
        vote_request_next(s, r).0.current_term >= s.current_term,
{
}

/// Law: a node becomes leader only as a candidate that receives a granted
/// vote of its own term which gives it a strict majority of the cluster.
pub proof fn lemma_leader_needs_majority(s: NodeView, v: VoteResponse)
    requires
        s.role != Role::Leader,
        !refused_in_own_term(s, v),
        vote_response_next(s, v).0.role == Role::Leader,
    ensures
        s.role == Role::Candidate,
        v.term == s.current_term,
        v.vote_granted,
        s.vote_count + 1 > s.cluster_size / 2,
        vote_response_next(s, v).0.current_term == s.current_term,
        vote_response_next(s, v).0.current_leader == Some(s.id),
{
}

/// Law: the term of a node never goes down, whatever message it takes.
pub proof fn lemma_terms_never_decrease(
    s: NodeView,
    e: AppendEntries,
    r: RequestVote,
    v: VoteResponse,
)
    ensures
        entries_next(s, e).0.current_term >= s.current_term,
        vote_request_next(s, r).0.current_term >= s.current_term,
        vote_response_next(s, v).0.current_term >= s.current_term,
{
}

/// Law: every transition keeps the count of votes below a strict majority:
/// a count that reaches a majority turns into leadership and is reset to 0.
/// It holds of every vote response, with no input left out.
pub proof fn lemma_transitions_keep_wf(
    s: NodeView,
    e: AppendEntries,
    r: RequestVote,
    v: VoteResponse,
)
    requires
        s.wf(),
    ensures
        entries_next(s, e).0.wf(),
        vote_request_next(s, r).0.wf(),
        vote_response_next(s, v).0.wf(),
{
}

/// The state of one Raft node.
#[derive(Debug)]
pub struct NodeState {
    /// Id of this Node
    id: u32,
    /// Cluster Size
    cluster_size: u32,
    /// Current leader
    current_leader: Option<u32>,
    /// Leader, Follower, Candidate
    role: Role,
    /// Current term
    current_term: u64,
    /// Node ID voted for in this term
    voted_for: Option<u32>,
    /// Replicated log
    log: Vec<LogEntry>,
    /// Highest committed entry
    commit_index: usize,
    /// Last entry applied to KV store
    last_applied: usize,
    /// Key-value store
    kv_store: HashMap<String, String>,
    /// Timeout tracker
    timeout: Timeout,
    /// Vote count for this node in the current term
    vote_count: u32,
}

impl View for NodeState {
    type V = NodeView;

    closed spec fn view(&self) -> NodeView {
        NodeView {
            id: self.id,
            cluster_size: self.cluster_size,
            current_leader: self.current_leader,
            role: self.role,
            current_term: self.current_term,
            voted_for: self.voted_for,
            log: self.log@,
            commit_index: self.commit_index,
            last_applied: self.last_applied,
            kv_store: self.kv_store@,
            timer_is_leader: self.timeout.is_leader,
            timer_ms: self.timeout.duration_ms,
            vote_count: self.vote_count,
        }
    }
}

impl NodeState {
    pub open spec fn wf(&self) -> bool {
        self@.wf()
    }

    /// A follower of term 0 with an empty log, no vote cast and no leader
    /// known, its timer armed for a random election timeout.
    pub fn new(config: &Config) -> (state: Self)
        ensures
            state.wf(),
            state@.id == config.id,
            state@.cluster_size == config.number_of_nodes,
            state@.current_leader is None,
            state@.role == Role::Follower,
            state@.current_term == 0,
            state@.voted_for is None,
            state@.log.len() == 0,
            state@.commit_index == 0,
            state@.last_applied == 0,
            state@.kv_store.is_empty(),
            !state@.timer_is_leader,
            valid_duration(false, state@.timer_ms),
            state@.vote_count == 0,
    {
        NodeState {
            id: config.id,
            cluster_size: config.number_of_nodes,
            role: Role::Follower,
            current_term: 0,
            voted_for: None,
            current_leader: None,
            log: Vec::new(),
            commit_index: 0,
            last_applied: 0,
            kv_store: HashMap::new(),
            timeout: Timeout::new(),
            vote_count: 0,
        }
    }

    pub fn current_term(&self) -> (term: u64)
        ensures
            term == self@.current_term,
    {
        self.current_term
    }

    /// Opens the next term: no vote cast in it and none counted yet.
    pub fn increment_term(&mut self)
        requires
            old(self).wf(),
            old(self)@.current_term < u64::MAX,
        ensures
            final(self).wf(),
            final(self)@ == (NodeView {
                current_term: (old(self)@.current_term + 1) as u64,
                vote_count: 0,
                voted_for: None,
                ..old(self)@
            }),
    {
        self.current_term = self.current_term + 1;
        self.vote_count = 0;
        self.voted_for = None;
    }

    pub fn timeout(&self) -> (timeout: &Timeout)
        ensures
            timeout.is_leader == self@.timer_is_leader,
            timeout.duration_ms == self@.timer_ms,
    {
        &self.timeout
    }

    pub fn last_log_term(&self) -> (term: u64)
        ensures
            term == self@.last_log_term(),
    {
        match self.log.last() {
            Some(entry) => entry.term(),
            None => 0,
        }
    }

    pub fn last_log_index(&self) -> (index: usize)
        ensures
            index == self@.last_log_index(),
    {
        self.log.len()
    }

    /// Becomes a candidate that has voted for `id` (itself).
    pub fn vote_for_self(&mut self, id: u32)
        requires
            old(self).wf(),
        ensures
            final(self).wf(),
            final(self)@ == (NodeView {
                role: Role::Candidate,
                voted_for: Some(id),
                ..old(self)@
            }),
    {
        self.role = Role::Candidate;
        self.voted_for = Some(id);
    }

    /// The vote request a candidate `id` sends in the node's current term.
    pub fn create_vote_request(&self, id: u32) -> (message: Message)
        ensures
            message == Message::RequestVote(
                RequestVote {
                    term: self@.current_term,
                    candidate_id: id,
                    last_log_index: self@.last_log_index() as usize,
                    last_log_term: self@.last_log_term(),
                },
            ),
    {
        Message::RequestVote(
            RequestVote {
                term: self.current_term,
                candidate_id: id,
                last_log_index: self.log.len(),
                last_log_term: self.last_log_term(),
            },
        )
    }

    /// Takes an `AppendEntries`: a stale leader is refused; a newer term is
    /// adopted and its sender followed; in the node's own term the sender is
    /// accepted when no other leader is known. Returns whether the sender was
    /// accepted, that is whether the election timer restarts.
    pub fn handle_entries(&mut self, entries: AppendEntries) -> (accepted: bool)
        requires
            old(self).wf(),
        ensures
            final(self).wf(),
            (final(self)@, accepted) == entries_next(old(self)@, entries),
            final(self)@.current_term >= old(self)@.current_term,
            accepted ==> final(self)@.current_leader == Some(entries.leader_id)
                && final(self)@.current_term == entries.term,
    {
        // Reject if the term is lower (stale leader)
        if entries.term < self.current_term {
            return false;
        }
        // If term is higher, update our term and step down if leader
        if entries.term > self.current_term {
            self.current_term = entries.term;
            self.role = Role::Follower;
            self.current_leader = Some(entries.leader_id);
            self.timeout.is_leader = false;
            return true;
        }
        // Term is equal: accept if no leader or matching leader
        match self.current_leader {
            None => {
                self.current_leader = Some(entries.leader_id);
                true
            },
            Some(leader) => leader == entries.leader_id,
        }
    }

    /// Takes a `RequestVote` and answers it. A candidate of an older term is
    /// refused; a newer term is adopted (forgetting the vote of the old one);
    /// the vote is granted when the node has not voted for another candidate
    /// in the term and the candidate's log is at least as up to date.
    pub fn handle_vote_request(&mut self, vote_request: RequestVote) -> (response: Message)
        requires
            old(self).wf(),
        ensures
            final(self).wf(),
            final(self)@ == vote_request_next(old(self)@, vote_request).0,
            response == Message::VoteResponse(vote_request_next(old(self)@, vote_request).1),
            final(self)@.current_term >= old(self)@.current_term,
    {
        let RequestVote { term, candidate_id, last_log_term, last_log_index } = vote_request;
        // Reject if candidate's term is outdated
        if term < self.current_term {
            return Message::VoteResponse(VoteResponse::new(self.current_term, false));
        }
        // Update term and reset vote if candidate's term is newer
        if term > self.current_term {
            self.current_term = term;
            self.voted_for = None;
        }
        let may_vote: bool = match self.voted_for {
            None => true,
            Some(v) => v == candidate_id,
        };
        let my_last_term: u64 = self.last_log_term();
        let my_last_index: usize = self.last_log_index();
        let vote_granted: bool = may_vote && (last_log_term > my_last_term || (last_log_term
            == my_last_term && last_log_index >= my_last_index));
        if vote_granted {
            self.voted_for = Some(candidate_id);
        }
        Message::VoteResponse(VoteResponse::new(self.current_term, vote_granted))
    }

    pub fn role(&self) -> (role: &Role)
        ensures
            *role == self@.role,
    {
        &self.role
    }

    pub fn vote_count(&self) -> (count: u32)
        ensures
            count == self@.vote_count,
    {
        self.vote_count
    }

    /// Takes a `VoteResponse`. Only a candidate listens; a newer term makes it
    /// step down; a granted vote of its own term is counted, and a strict
    /// majority of the cluster makes it leader. Returns whether the election
    /// timer restarts.
    pub fn handle_vote_response(&mut self, vote_response: VoteResponse) -> (restart: bool)
        requires
            old(self).wf(),
            !refused_in_own_term(old(self)@, vote_response),
        ensures
            final(self).wf(),
            (final(self)@, restart) == vote_response_next(old(self)@, vote_response),
            final(self)@.current_term >= old(self)@.current_term,
    {
        let VoteResponse { term, vote_granted } = vote_response;
        if self.role != Role::Candidate {
            return false;
        }
        if term > self.current_term {
            self.current_term = term;
            self.role = Role::Follower;
            self.voted_for = None;
            self.current_leader = None;
            self.vote_count = 0;
            return true;
        }
        if term < self.current_term {
            return false;
        }
        // a vote of the node's own term: granted, by the precondition
        self.vote_count = self.vote_count + 1;
        if self.vote_count > self.cluster_size / 2 {
            self.initialize_leader_state();
            return true;
        }
        false
    }

    /// Becomes leader of the current term: the timer switches to heartbeats
    /// and the node knows itself as leader.
    pub fn initialize_leader_state(&mut self)
        ensures
            final(self).wf(),
            final(self)@ == old(self)@.as_leader(),
    {
        self.role = Role::Leader;
        self.timeout.is_leader = true;
        self.current_leader = Some(self.id);
        self.vote_count = 0;
    }

    pub fn id(&self) -> (id: u32)
        ensures
            id == self@.id,
    {
        self.id
    }

    pub fn set_new_leader(&mut self, id: Option<u32>)
        requires
            old(self).wf(),
        ensures
            final(self).wf(),
            final(self)@ == (NodeView { current_leader: id, ..old(self)@ }),
    {
        self.current_leader = id;
    }

    /// Draws the timer's next countdown for the node's current mode.
    pub fn reset_timeout(&mut self)
        requires
            old(self).wf(),
        ensures
            final(self).wf(),
            final(self)@ == (NodeView { timer_ms: final(self)@.timer_ms, ..old(self)@ }),
            valid_duration(final(self)@.timer_is_leader, final(self)@.timer_ms),
    {
        self.timeout.reset();
    }

    /// One poll of the election timer; see `Timeout::poll_step`. When it
    /// reports `Elapsed` the node's owner runs the timer-elapsed step.
    pub fn poll(&mut self, elapsed: bool, signal: ResetSignal) -> (outcome: TimerPoll)
        requires
            old(self).wf(),
        ensures
            final(self).wf(),
            outcome == TimerPoll::Elapsed <==> (elapsed || signal == ResetSignal::Closed),
            outcome == TimerPoll::Rearmed <==> (!elapsed && signal == ResetSignal::Received),
            outcome != TimerPoll::Rearmed ==> final(self)@ == old(self)@,
            outcome == TimerPoll::Rearmed ==> final(self)@ == (NodeView {
                timer_ms: final(self)@.timer_ms,
                ..old(self)@
            }) && valid_duration(final(self)@.timer_is_leader, final(self)@.timer_ms),
    {
        self.timeout.poll_step(elapsed, signal)
    }

    pub fn voted_for(&self) -> (voted_for: Option<u32>)
        ensures
            voted_for == self@.voted_for,
    {
        self.voted_for
    }

    pub fn current_leader(&self) -> (leader: Option<u32>)
        ensures
            leader == self@.current_leader,
    {
        self.current_leader
    }
}

} // verus!
