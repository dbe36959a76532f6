use raft::config::{Config, IpAddress, NodeAddr};
use raft::handler::HandlerEvent;
use raft::primitives::{
    AppendEntries, AppendResponse, Message, RequestVote, Role, VoteResponse,
};
use raft::swarm::{ListenerEvent, Swarm, SwarmAction, SwarmEvent, SwarmInput};
use raft::timeout::{ResetSignal, TimerPoll};

fn addr(port: u16) -> NodeAddr {
    NodeAddr { ip: IpAddress::V4([127, 0, 0, 1]), port }
}

fn swarm(id: u32, nodes: u32) -> Swarm {
    Swarm::new(Config::new(id, nodes, addr(8000 + id as u16)))
}

fn connect(s: &mut Swarm, peer: u16) -> SwarmAction {
    s.step(SwarmInput::Handler(HandlerEvent::NewSession { addr: addr(8000 + peer) }))
}

#[test]
fn accepted_connection_is_announced() {
    let mut s = swarm(0, 3);
    match s.step(SwarmInput::Listener(ListenerEvent::NewConnection { addr: addr(40000) })) {
        SwarmAction::Accept(SwarmEvent::NewConnection { addr: a }) => assert_eq!(a, addr(40000)),
        other => panic!("unexpected {:?}", other),
    }
    assert!(!s.is_connected(32000));
}

#[test]
fn session_is_filed_under_port_owner_once() {
    let mut s = swarm(0, 3);
    match connect(&mut s, 2) {
        SwarmAction::StartSession { peer_id } => assert_eq!(peer_id, 2),
        other => panic!("unexpected {:?}", other),
    }
    assert_eq!(s.spawn_session(addr(8002)), 2);
    assert_eq!(s.spawn_session(addr(8001)), 1);
    assert!(s.is_connected(1));
    assert!(s.is_connected(2));
    assert!(!s.is_connected(0));
}

#[test]
fn follower_timeout_starts_election() {
    let mut s = swarm(0, 3);
    connect(&mut s, 1);
    connect(&mut s, 2);
    match s.step(SwarmInput::TimerElapsed) {
        SwarmAction::Broadcast { broadcast, timer_ms } => {
            assert_eq!(
                broadcast.message,
                Message::RequestVote(RequestVote {
                    term: 1,
                    candidate_id: 0,
                    last_log_index: 0,
                    last_log_term: 0
                })
            );
            assert_eq!(broadcast.recipients, vec![1, 2]);
            assert!((150..=250).contains(&timer_ms));
            assert_eq!(s.state().timeout().duration_ms, timer_ms);
        }
        other => panic!("unexpected {:?}", other),
    }
    assert_eq!(*s.state().role(), Role::Candidate);
    assert_eq!(s.state().current_term(), 1);
    assert_eq!(s.state().voted_for(), Some(0));
}

#[test]
fn election_won_then_heartbeats() {
    let mut s = swarm(0, 3);
    connect(&mut s, 1);
    connect(&mut s, 2);
    s.step(SwarmInput::TimerElapsed);
    let vote = VoteResponse::new(1, true);
    match s.step(SwarmInput::Handler(HandlerEvent::VoteResponse(vote))) {
        SwarmAction::Idle => {}
        other => panic!("unexpected {:?}", other),
    }
    match s.step(SwarmInput::Handler(HandlerEvent::VoteResponse(vote))) {
        SwarmAction::RestartTimer => {}
        other => panic!("unexpected {:?}", other),
    }
    assert_eq!(*s.state().role(), Role::Leader);
    match s.step(SwarmInput::TimerElapsed) {
        SwarmAction::Broadcast { broadcast, timer_ms } => {
            match broadcast.message {
                Message::AppendEntries(e) => {
                    assert_eq!(e.term, 2);
                    assert_eq!(e.leader_id, 0);
                    assert!(e.entries.is_empty());
                    assert_eq!(e.leader_commit, 0);
                    assert_eq!(e.prev_log_index, 0);
                    assert_eq!(e.prev_log_term, 0);
                }
                other => panic!("unexpected {:?}", other),
            }
            assert_eq!(broadcast.recipients, vec![1, 2]);
            assert_eq!(timer_ms, 100);
        }
        other => panic!("unexpected {:?}", other),
    }
    assert_eq!(*s.state().role(), Role::Leader);
    assert_eq!(s.state().current_term(), 2);
}

#[test]
fn vote_request_answered_to_candidate() {
    let mut s = swarm(1, 3);
    connect(&mut s, 0);
    let r = RequestVote { term: 1, candidate_id: 0, last_log_index: 0, last_log_term: 0 };
    match s.step(SwarmInput::Handler(HandlerEvent::VoteRequest(r))) {
        SwarmAction::Send(out) => {
            assert_eq!(out.to, 0);
            assert_eq!(out.message, Message::VoteResponse(VoteResponse::new(1, true)));
        }
        other => panic!("unexpected {:?}", other),
    }
    assert_eq!(s.state().voted_for(), Some(0));
}

#[test]
fn candidate_refuses_other_candidate_of_its_term() {
    let mut s = swarm(1, 3);
    connect(&mut s, 2);
    s.step(SwarmInput::TimerElapsed);
    let r = RequestVote { term: 1, candidate_id: 2, last_log_index: 0, last_log_term: 0 };
    match s.step(SwarmInput::Handler(HandlerEvent::VoteRequest(r))) {
        SwarmAction::Send(out) => {
            assert_eq!(out.message, Message::VoteResponse(VoteResponse::new(1, false)))
        }
        other => panic!("unexpected {:?}", other),
    }
}

#[test]
fn heartbeat_restarts_timer_and_stale_one_does_not() {
    let mut s = swarm(1, 3);
    let e = AppendEntries {
        term: 3,
        leader_id: 0,
        prev_log_index: 0,
        prev_log_term: 0,
        entries: Vec::new(),
        leader_commit: 0,
    };
    match s.step(SwarmInput::Handler(HandlerEvent::ReceivedEntries(e.clone()))) {
        SwarmAction::RestartTimer => {}
        other => panic!("unexpected {:?}", other),
    }
    assert_eq!(s.state().current_leader(), Some(0));
    let stale = AppendEntries { term: 2, ..e };
    match s.step(SwarmInput::Handler(HandlerEvent::ReceivedEntries(stale))) {
        SwarmAction::Idle => {}
        other => panic!("unexpected {:?}", other),
    }
    match s.step(SwarmInput::Handler(HandlerEvent::AppendResponse(AppendResponse {
        term: 3,
        success: true,
    }))) {
        SwarmAction::Idle => {}
        other => panic!("unexpected {:?}", other),
    }
    assert_eq!(s.state().current_term(), 3);
}

#[test]
fn poll_timer_outcomes() {
    let mut s = swarm(0, 3);
    let before = s.state().timeout().duration_ms;
    assert_eq!(s.poll_timer(false, ResetSignal::Empty), TimerPoll::Pending);
    assert_eq!(s.state().timeout().duration_ms, before);
    assert_eq!(s.poll_timer(true, ResetSignal::Empty), TimerPoll::Elapsed);
    assert_eq!(s.poll_timer(false, ResetSignal::Closed), TimerPoll::Elapsed);
    assert_eq!(s.poll_timer(false, ResetSignal::Received), TimerPoll::Rearmed);
    assert!((150..=250).contains(&s.state().timeout().duration_ms));
}
