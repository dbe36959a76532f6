use vstd::prelude::*;

use crate::config::{peer_id_of_port, port_owner, Config, NodeAddr, BASE_PORT};
use crate::handler::HandlerEvent;
use crate::primitives::{AppendEntries, Message, RequestVote, Role, VoteResponse};
use crate::state::{
    entries_next, refused_in_own_term, vote_request_next, vote_response_next, NodeState,
    NodeView,
};
use crate::timeout::{valid_duration, ResetSignal, TimerPoll};

verus! {

/// What the listener of a node reports.
#[derive(Debug)]
pub enum ListenerEvent {
    /// A peer connected from `addr`.
    NewConnection { addr: NodeAddr },
    /// Accepting a connection failed.
    ConnectionError,
}

/// What a node reports to its owner.
#[derive(Debug, Clone, Copy, PartialEq, Eq)]
pub enum SwarmEvent {
    NewConnection { addr: NodeAddr },
}

/// A message for one peer.
#[derive(Debug)]
pub struct Outgoing {
    pub to: u32,
    pub message: Message,
}

/// A message for every peer the node has a session with.
#[derive(Debug)]
pub struct Broadcast {
    pub message: Message,
    pub recipients: Vec<u32>,
}

/// What wakes a node up.
#[derive(Debug)]
pub enum SwarmInput {
    Listener(ListenerEvent),
    Handler(HandlerEvent),
    /// The election timer ran out.
    TimerElapsed,
}

/// What a node asks its runtime to do after an input.
#[derive(Debug)]
pub enum SwarmAction {
    /// Open a pending session on the accepted connection and report the event.
    Accept(SwarmEvent),
    /// Start the session with peer `peer_id`, whose handshake completed.
    StartSession { peer_id: u32 },
    /// Send a message to one peer.
    Send(Outgoing),
    /// Send a message to the listed peers, then re-arm the election timer for
    /// `timer_ms` milliseconds.
    Broadcast { broadcast: Broadcast, timer_ms: u64 },
    /// Restart the election timer.
    RestartTimer,
    /// Nothing to do.
    Idle,
}

/// The abstract state of a node together with its sessions.
pub struct SwarmView {
    pub config: Config,
    pub state: NodeView,
    /// The peers the node has a session with, in the order they connected.
    pub peers: Seq<u32>,
}

impl SwarmView {
    /// The node's state is well formed and belongs to its configuration, no
    /// peer has two sessions, and the timer counts heartbeats exactly when
    /// the node leads.
    pub open spec fn wf(self) -> bool {
        &&& self.state.wf()
        &&& self.state.id == self.config.id
        &&& self.state.cluster_size == self.config.number_of_nodes
        &&& self.peers.no_duplicates()
        &&& (self.state.role == Role::Leader) == self.state.timer_is_leader
    }

    /// The peers after the handshake of a session with `peer` completed.
    pub open spec fn with_peer(self, peer: u32) -> Seq<u32> {
        if self.peers.contains(peer) {
            self.peers
        } else {
            self.peers.push(peer)
        }
    }
}

/// The state of a node after its timer ran out: the next term opened; a node
/// that does not lead becomes a candidate that voted for itself.
pub open spec fn timer_elapsed_next(s: NodeView, own_id: u32) -> NodeView {
    if s.role == Role::Leader {
        NodeView {
            current_term: (s.current_term + 1) as u64,
            vote_count: 0,
            voted_for: None,
            ..s
        }
    } else {
        NodeView {
            current_term: (s.current_term + 1) as u64,
            vote_count: 0,
            voted_for: Some(own_id),
            role: Role::Candidate,
            ..s
        }
    }
}

/// The inputs a node can take: those on which it does not stop.
pub open spec fn input_allowed(s: SwarmView, input: SwarmInput) -> bool {
    match input {
        SwarmInput::Listener(ListenerEvent::ConnectionError) => false,
        SwarmInput::Listener(ListenerEvent::NewConnection { .. }) => true,
        SwarmInput::Handler(HandlerEvent::NewSession { addr }) => addr.port >= BASE_PORT,
        SwarmInput::Handler(HandlerEvent::VoteRequest(r)) => s.peers.contains(r.candidate_id),
        SwarmInput::Handler(HandlerEvent::VoteResponse(v)) => !refused_in_own_term(s.state, v),
        SwarmInput::Handler(_) => true,
        SwarmInput::TimerElapsed => s.state.current_term < u64::MAX,
    }
}

/// Law: a completed handshake files its peer: afterwards the peer has a
/// session, every peer that had one keeps it, no other is added, and no peer
/// has two.
pub proof fn lemma_with_peer(s: SwarmView, peer: u32)
    requires
        s.peers.no_duplicates(),
    ensures
        s.with_peer(peer).contains(peer),
        forall|p: u32| s.with_peer(peer).contains(p) <==> (s.peers.contains(p) || p == peer),
        s.with_peer(peer).no_duplicates(),
{
    if !s.peers.contains(peer) {
        assert forall|p: u32| s.with_peer(peer).contains(p) implies (s.peers.contains(p) || p == peer) by {
            let k = choose|k: int| 0 <= k < s.with_peer(peer).len() && s.with_peer(peer)[k] == p;
            if k < s.peers.len() {
                assert(s.peers[k] == p);
            }
        }
        assert(s.with_peer(peer)[s.peers.len() as int] == peer);
        assert forall|p: u32| s.peers.contains(p) implies s.with_peer(peer).contains(p) by {
            let k = choose|k: int| 0 <= k < s.peers.len() && s.peers[k] == p;
            assert(s.with_peer(peer)[k] == p);
        }
    }
}

/// Law: a node that starts an election votes for itself, and so refuses its
/// vote to every other candidate of the term it opened.
pub proof fn lemma_candidate_refuses_others(s: SwarmView, r: RequestVote)
    requires
        s.wf(),
        s.state.role != Role::Leader,
        s.state.current_term < u64::MAX,
        r.term == timer_elapsed_next(s.state, s.config.id).current_term,
        r.candidate_id != s.config.id,
    ensures
        timer_elapsed_next(s.state, s.config.id).voted_for == Some(s.config.id),
        !vote_request_next(timer_elapsed_next(s.state, s.config.id), r).1.vote_granted,
{
}

/// Law: an election timer that runs out always moves the node to a new term,
/// and leaves a leader leading and any other node a candidate.
pub proof fn lemma_timer_opens_new_term(s: NodeView, own_id: u32)
    requires
        s.current_term < u64::MAX,
    ensures
        timer_elapsed_next(s, own_id).current_term == s.current_term + 1,
        timer_elapsed_next(s, own_id).vote_count == 0,
        s.role == Role::Leader ==> timer_elapsed_next(s, own_id).role == Role::Leader,
        s.role != Role::Leader ==> timer_elapsed_next(s, own_id).role == Role::Candidate,
{
}

/// A Raft node: its configuration, its state and its sessions.
#[derive(Debug)]
pub struct Swarm {
    config: Config,
    state: NodeState,
    peers: Vec<u32>,
}

impl View for Swarm {
    type V = SwarmView;

    closed spec fn view(&self) -> SwarmView {
        SwarmView { config: self.config, state: self.state@, peers: self.peers@ }
    }
}

impl Swarm {
    pub open spec fn wf(&self) -> bool {
        self@.wf()
    }

    /// A node that starts as a follower of term 0, with no session yet.
    pub fn new(config: Config) -> (swarm: Self)
        ensures
            swarm.wf(),
            swarm@.config == config,
            swarm@.peers.len() == 0,
            swarm@.state.role == Role::Follower,
            swarm@.state.current_term == 0,
            swarm@.state.voted_for is None,
            swarm@.state.current_leader is None,
            swarm@.state.log.len() == 0,
            swarm@.state.commit_index == 0,
            swarm@.state.last_applied == 0,
            swarm@.state.kv_store.is_empty(),
            !swarm@.state.timer_is_leader,
            swarm@.state.vote_count == 0,
            valid_duration(false, swarm@.state.timer_ms),
    {
        let state = NodeState::new(&config);
        Swarm { config, state, peers: Vec::new() }
    }

    pub fn config(&self) -> (config: &Config)
        ensures
            *config == self@.config,
    {
        &self.config
    }

    pub fn state(&self) -> (state: &NodeState)
        ensures
            state@ == self@.state,
    {
        &self.state
    }

    /// Whether the node has a session with `peer`.
    pub fn is_connected(&self, peer: u32) -> (connected: bool)
        ensures
            connected == self@.peers.contains(peer),
    {
        let mut i: usize = 0;
        while i < self.peers.len()
            invariant
                i <= self.peers@.len(),
                forall|j: int| 0 <= j < i ==> self.peers@[j] != peer,
            decreases self.peers@.len() - i,
        {
            if self.peers[i] == peer {
                return true;
            }
            i = i + 1;
        }
        false
    }

    /// Files the session whose handshake completed with the peer listening on
    /// `addr`, under the peer's id, which it returns. A peer that already had
    /// a session keeps its one entry.
    pub fn spawn_session(&mut self, addr: NodeAddr) -> (peer_id: u32)
        requires
            old(self).wf(),
            addr.port >= BASE_PORT,
        ensures
            final(self).wf(),
            peer_id == port_owner(addr.port),
            final(self)@ == (SwarmView { peers: old(self)@.with_peer(peer_id), ..old(self)@ }),
            final(self)@.peers.contains(peer_id),
            forall|p: u32| final(self)@.peers.contains(p) <==> (old(self)@.peers.contains(p) || p
                == peer_id),
    {
        let id: u32 = peer_id_of_port(addr.port);
        proof {
            lemma_with_peer(self@, id);
        }
        if !self.is_connected(id) {
            self.peers.push(id);
        }
        id
    }

    /// Answers a vote request from a peer the node has a session with.
    pub fn handle_vote_request(&mut self, vote_request: RequestVote) -> (out: Outgoing)
        requires
            old(self).wf(),
            old(self)@.peers.contains(vote_request.candidate_id),
        ensures
            final(self).wf(),
            final(self)@ == (SwarmView {
                state: vote_request_next(old(self)@.state, vote_request).0,
                ..old(self)@
            }),
            out.to == vote_request.candidate_id,
            out.message == Message::VoteResponse(
                vote_request_next(old(self)@.state, vote_request).1,
            ),
    {
        let candidate_id: u32 = vote_request.candidate_id;
        let response = self.state.handle_vote_request(vote_request);
        Outgoing { to: candidate_id, message: response }
    }

    pub fn handle_vote_response(&mut self, vote_response: VoteResponse) -> (restart: bool)
        requires
            old(self).wf(),
            !refused_in_own_term(old(self)@.state, vote_response),
        ensures
            final(self).wf(),
            (final(self)@.state, restart) == vote_response_next(old(self)@.state, vote_response),
            final(self)@.config == old(self)@.config,
            final(self)@.peers == old(self)@.peers,
    {
        self.state.handle_vote_response(vote_response)
    }

    pub fn handle_entries(&mut self, entries: AppendEntries) -> (accepted: bool)
        requires
            old(self).wf(),
        ensures
            final(self).wf(),
            (final(self)@.state, accepted) == entries_next(old(self)@.state, entries),
            final(self)@.config == old(self)@.config,
            final(self)@.peers == old(self)@.peers,
    {
        self.state.handle_entries(entries)
    }

    /// A copy of the list of the node's peers.
    fn peer_list(&self) -> (list: Vec<u32>)
        ensures
            list@ == self@.peers,
    {
        let mut list: Vec<u32> = Vec::new();
        let mut i: usize = 0;
        while i < self.peers.len()
            invariant
                i <= self.peers@.len(),
                list@ == self.peers@.take(i as int),
            decreases self.peers@.len() - i,
        {
            list.push(self.peers[i]);
            i = i + 1;
            assert(list@ =~= self.peers@.take(i as int));
        }
        assert(list@ =~= self.peers@);
        list
    }

    /// The leader's timer ran out: it opens the next term, sends every peer a
    /// heartbeat of that term and re-arms its timer. Returns the broadcast and
    /// the new countdown.
    pub fn handle_timer_elapsed_as_leader(&mut self) -> (sent: (Broadcast, u64))
        requires
            old(self).wf(),
            old(self)@.state.current_term < u64::MAX,
        ensures
            final(self).wf(),
            final(self)@ == (SwarmView {
                state: NodeView {
                    current_term: (old(self)@.state.current_term + 1) as u64,
                    vote_count: 0,
                    voted_for: None,
                    timer_ms: sent.1,
                    ..old(self)@.state
                },
                ..old(self)@
            }),
            valid_duration(old(self)@.state.timer_is_leader, sent.1),
            sent.0.message matches Message::AppendEntries(e) && e.term
                == final(self)@.state.current_term && e.leader_id == old(self)@.state.id
                && e.prev_log_index == 0 && e.prev_log_term == 0 && e.entries@.len() == 0
                && e.leader_commit == 0,
            sent.0.recipients@ == old(self)@.peers,
            sent.0.recipients@.no_duplicates(),
    {
        self.state.increment_term();
        let entries = AppendEntries {
            term: self.state.current_term(),
            entries: Vec::new(),
            leader_commit: 0,
            leader_id: self.state.id(),
            prev_log_term: 0,
            prev_log_index: 0,
        };
        let recipients = self.peer_list();
        self.state.reset_timeout();
        let timer_ms: u64 = self.state.timeout().duration_ms;
        (Broadcast { message: Message::AppendEntries(entries), recipients }, timer_ms)
    }

    /// The timer of a follower or candidate ran out: it opens the next term,
    /// becomes a candidate that voted for itself, asks every peer for its vote
    /// and re-arms its timer. Returns the broadcast and the new countdown.
    pub fn handle_timer_elapsed_as_follower(&mut self) -> (sent: (Broadcast, u64))
        requires
            old(self).wf(),
            old(self)@.state.role != Role::Leader,
            old(self)@.state.current_term < u64::MAX,
        ensures
            final(self).wf(),
            final(self)@ == (SwarmView {
                state: NodeView {
                    current_term: (old(self)@.state.current_term + 1) as u64,
                    vote_count: 0,
                    voted_for: Some(old(self)@.config.id),
                    role: Role::Candidate,
                    timer_ms: sent.1,
                    ..old(self)@.state
                },
                ..old(self)@
            }),
            valid_duration(false, sent.1),
            sent.0.message == Message::RequestVote(
                RequestVote {
                    term: final(self)@.state.current_term,
                    candidate_id: old(self)@.config.id,
                    last_log_index: old(self)@.state.last_log_index() as usize,
                    last_log_term: old(self)@.state.last_log_term(),
                },
            ),
            sent.0.recipients@ == old(self)@.peers,
            sent.0.recipients@.no_duplicates(),
    {
        self.state.increment_term();
        let message = self.state.create_vote_request(self.config.id);
        self.state.vote_for_self(self.config.id);
        let recipients = self.peer_list();
        self.state.reset_timeout();
        let timer_ms: u64 = self.state.timeout().duration_ms;
        (Broadcast { message, recipients }, timer_ms)
    }

    /// Takes one input and decides what the node does about it: an accepted
    /// connection opens a pending session; a completed handshake starts a
    /// session; leaders, candidates and votes are answered by the node's
    /// state, restarting the election timer when the state says so; when the
    /// timer runs out a leader sends heartbeats and any other node starts an
    /// election.
    pub fn step(&mut self, input: SwarmInput) -> (action: SwarmAction)
        requires
            old(self).wf(),
            input_allowed(old(self)@, input),
        ensures
            final(self).wf(),
            final(self)@.config == old(self)@.config,
            match input {
                SwarmInput::Listener(ListenerEvent::NewConnection { addr }) => {
                    &&& action == SwarmAction::Accept(SwarmEvent::NewConnection { addr })
                    &&& final(self)@ == old(self)@
                },
                SwarmInput::Listener(ListenerEvent::ConnectionError) => false,
                SwarmInput::Handler(HandlerEvent::NewSession { addr }) => {
                    &&& action == SwarmAction::StartSession {
                        peer_id: port_owner(addr.port) as u32,
                    }
                    &&& final(self)@.peers == old(self)@.with_peer(port_owner(addr.port) as u32)
                    &&& final(self)@.peers.contains(port_owner(addr.port) as u32)
                    &&& forall|p: u32| final(self)@.peers.contains(p) <==> (old(self)@.peers.contains(p)
                        || p == port_owner(addr.port))
                    &&& final(self)@.state == old(self)@.state
                },
                SwarmInput::Handler(HandlerEvent::ReceivedEntries(e)) => {
                    &&& final(self)@.state == entries_next(old(self)@.state, e).0
                    &&& final(self)@.peers == old(self)@.peers
                    &&& if entries_next(old(self)@.state, e).1 {
                        action is RestartTimer
                    } else {
                        action is Idle
                    }
                },
                SwarmInput::Handler(HandlerEvent::AppendResponse(_)) => {
                    &&& action is Idle
                    &&& final(self)@ == old(self)@
                },
                SwarmInput::Handler(HandlerEvent::VoteRequest(r)) => {
                    &&& final(self)@.state == vote_request_next(old(self)@.state, r).0
                    &&& final(self)@.peers == old(self)@.peers
                    &&& action matches SwarmAction::Send(out) && out.to == r.candidate_id
                        && out.message == Message::VoteResponse(
                        vote_request_next(old(self)@.state, r).1,
                    )
                },
                SwarmInput::Handler(HandlerEvent::VoteResponse(v)) => {
                    &&& final(self)@.state == vote_response_next(old(self)@.state, v).0
                    &&& final(self)@.peers == old(self)@.peers
                    &&& if vote_response_next(old(self)@.state, v).1 {
                        action is RestartTimer
                    } else {
                        action is Idle
                    }
                },
                SwarmInput::TimerElapsed => {
                    &&& final(self)@.peers == old(self)@.peers
                    &&& action matches SwarmAction::Broadcast { broadcast, timer_ms } && {
                        &&& final(self)@.state == (NodeView {
                            timer_ms,
                            ..timer_elapsed_next(old(self)@.state, old(self)@.config.id)
                        })
                        &&& valid_duration(final(self)@.state.timer_is_leader, timer_ms)
                        &&& broadcast.recipients@ == old(self)@.peers
                        &&& broadcast.recipients@.no_duplicates()
                        &&& if old(self)@.state.role == Role::Leader {
                            broadcast.message matches Message::AppendEntries(e) && e.term
                                == final(self)@.state.current_term && e.leader_id
                                == old(self)@.config.id && e.entries@.len() == 0
                                && e.prev_log_index == 0 && e.prev_log_term == 0
                                && e.leader_commit == 0
                        } else {
                            broadcast.message == Message::RequestVote(
                                RequestVote {
                                    term: final(self)@.state.current_term,
                                    candidate_id: old(self)@.config.id,
                                    last_log_index: old(self)@.state.last_log_index() as usize,
                                    last_log_term: old(self)@.state.last_log_term(),
                                },
                            )
                        }
                    }
                },
            },
    {
        match input {
            SwarmInput::Listener(ListenerEvent::NewConnection { addr }) => {
                SwarmAction::Accept(SwarmEvent::NewConnection { addr })
            },
            SwarmInput::Listener(ListenerEvent::ConnectionError) => {
                // ruled out by the precondition
                proof {
                    assert(false);
                }
                SwarmAction::Idle
            },
            SwarmInput::Handler(HandlerEvent::NewSession { addr }) => {
                let peer_id: u32 = self.spawn_session(addr);
                SwarmAction::StartSession { peer_id }
            },
            SwarmInput::Handler(HandlerEvent::ReceivedEntries(entries)) => {
                if self.handle_entries(entries) {
                    SwarmAction::RestartTimer
                } else {
                    SwarmAction::Idle
                }
            },
            SwarmInput::Handler(HandlerEvent::AppendResponse(_)) => SwarmAction::Idle,
            SwarmInput::Handler(HandlerEvent::VoteRequest(vote_request)) => {
                SwarmAction::Send(self.handle_vote_request(vote_request))
            },
            SwarmInput::Handler(HandlerEvent::VoteResponse(vote_response)) => {
                if self.handle_vote_response(vote_response) {
                    SwarmAction::RestartTimer
                } else {
                    SwarmAction::Idle
                }
            },
            SwarmInput::TimerElapsed => {
                let is_leader: bool = *self.state.role() == Role::Leader;
                let (broadcast, timer_ms) = if is_leader {
                    self.handle_timer_elapsed_as_leader()
                } else {
                    self.handle_timer_elapsed_as_follower()
                };
                SwarmAction::Broadcast { broadcast, timer_ms }
            },
        }
    }

    /// One poll of the node's election timer; see `NodeState::poll`.
    pub fn poll_timer(&mut self, elapsed: bool, signal: ResetSignal) -> (outcome: TimerPoll)
        requires
            old(self).wf(),
        ensures
            final(self).wf(),
            outcome == TimerPoll::Elapsed <==> (elapsed || signal == ResetSignal::Closed),
            outcome == TimerPoll::Rearmed <==> (!elapsed && signal == ResetSignal::Received),
            outcome != TimerPoll::Rearmed ==> final(self)@ == old(self)@,
            outcome == TimerPoll::Rearmed ==> final(self)@ == (SwarmView {
                state: NodeView { timer_ms: final(self)@.state.timer_ms, ..old(self)@.state },
                ..old(self)@
            }) && valid_duration(final(self)@.state.timer_is_leader, final(self)@.state.timer_ms),
    {
        self.state.poll(elapsed, signal)
    }
}

} // verus!
