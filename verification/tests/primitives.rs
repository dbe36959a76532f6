use raft::primitives::{Command, LogEntry, VoteResponse};

#[test]
fn log_entry_term() {
    let e = LogEntry {
        index: 3,
        term: 9,
        command: Command::Put { key: "k".to_string(), value: "v".to_string() },
    };
    assert_eq!(e.term(), 9);
    let g = LogEntry { index: 0, term: 0, command: Command::Get { key: "k".to_string() } };
    assert_eq!(g.term(), 0);
}

#[test]
fn vote_response_new() {
    let v = VoteResponse::new(4, true);
    assert_eq!(v.term, 4);
    assert!(v.vote_granted);
}
