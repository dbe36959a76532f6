use raft::config::{IpAddress, NodeAddr};
use raft::handler::HandlerEvent;
use raft::primitives::{AppendResponse, Message, RequestVote, VoteResponse};
use raft::session::{handshake_peer_addr, hello, Outbox, SessionCommand, SessionEvent};

fn addr(port: u16) -> NodeAddr {
    NodeAddr { ip: IpAddress::V4([127, 0, 0, 1]), port }
}

#[test]
fn outbox_is_fifo() {
    let mut outbox = Outbox::new();
    assert_eq!(outbox.pop(), None);
    outbox.push_command(SessionCommand::Send(Message::VoteResponse(VoteResponse::new(1, true))));
    outbox.push_command(SessionCommand::Send(Message::AppendResponse(AppendResponse {
        term: 2,
        success: false,
    })));
    assert_eq!(outbox.pop(), Some(Message::VoteResponse(VoteResponse::new(1, true))));
    assert_eq!(
        outbox.pop(),
        Some(Message::AppendResponse(AppendResponse { term: 2, success: false }))
    );
    assert_eq!(outbox.pop(), None);
}

#[test]
fn handshake_accepts_only_hello() {
    assert_eq!(handshake_peer_addr(hello(addr(8001))), Some(addr(8001)));
    assert_eq!(handshake_peer_addr(Message::VoteResponse(VoteResponse::new(0, false))), None);
    assert_eq!(hello(addr(8002)), Message::Hello { local_addr: addr(8002) });
}

#[test]
fn handler_sorts_messages() {
    let r = RequestVote { term: 3, candidate_id: 1, last_log_index: 0, last_log_term: 0 };
    match HandlerEvent::from_session_event(SessionEvent::ReceivedData(Message::RequestVote(r))) {
        HandlerEvent::VoteRequest(got) => assert_eq!(got, r),
        other => panic!("unexpected {:?}", other),
    }
    let v = VoteResponse::new(3, true);
    match HandlerEvent::from_session_event(SessionEvent::ReceivedData(Message::VoteResponse(v))) {
        HandlerEvent::VoteResponse(got) => assert_eq!(got, v),
        other => panic!("unexpected {:?}", other),
    }
    let a = AppendResponse { term: 1, success: true };
    match HandlerEvent::from_session_event(SessionEvent::ReceivedData(Message::AppendResponse(a)))
    {
        HandlerEvent::AppendResponse(got) => assert_eq!(got, a),
        other => panic!("unexpected {:?}", other),
    }
}
