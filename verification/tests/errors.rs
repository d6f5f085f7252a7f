use picodata::traft::error::{is_retriable_error_message, Error, InstanceId, TimeoutError};

#[test]
fn errors_have_their_texts() {
    let s = |text: &str| text.to_string();
    let cases = vec![
        (Error::Uninitialized, "uninitialized yet"),
        (Error::Timeout, "timeout"),
        (Error::Expelled, "current instance is expelled from the cluster"),
        (Error::Raft(s("raft: storage")), "raft: storage"),
        (
            Error::DowncastError { expected: "u8", actual: "a \"b\"\n" },
            "downcast error: expected \"u8\", actual: \"a \\\"b\\\"\\n\"",
        ),
        (
            Error::ClusterIdMismatch { instance_cluster_id: s("a"), cluster_cluster_id: s("b") },
            "cluster_id mismatch: cluster_id of the instance = \"a\", cluster_id of the cluster = \"b\"",
        ),
        (
            Error::ReplicasetIdMismatch { instance_rsid: s("r1"), requested_rsid: s("r2") },
            "cannot replicate with different replicaset: expected \"r1\", requested \"r2\"",
        ),
        (
            Error::TermMismatch { requested: 10, current: 18446744073709551615 },
            "operation request from different term 10, current term is 18446744073709551615",
        ),
        (Error::NotALeader, "not a leader"),
        (Error::Lua(s("x")), "lua error: x"),
        (Error::Tarantool(s("x")), "x"),
        (Error::NoInstanceWithRaftId(0), "instance with id 0 not found"),
        (Error::NoInstanceWithInstanceId(InstanceId(s("i1"))), "instance with id \"i1\" not found"),
        (Error::AddressUnknownForRaftId(7), "address of peer with id 7 not found"),
        (
            Error::AddressUnknownForInstanceId(InstanceId(s("i1"))),
            "address of peer with id \"i1\" not found",
        ),
        (Error::AddressParseFailure(s("x:")), "address of peer is incorrectly formatted: x:"),
        (Error::LeaderUnknown, "leader is unknown yet"),
        (Error::GovernorStopped, "governor has stopped"),
        (Error::Cas(s("ConflictFound")), "compare-and-swap: ConflictFound"),
        (Error::Ddl(s("x")), "x"),
        (Error::Sbroad(s("x")), "sbroad: x"),
        (Error::Transaction(s("x")), "transaction: x"),
        (
            Error::StorageCorrupted { table: s("t"), field: s("f") },
            "storage corrupted: failed to decode field 'f' from table 't'",
        ),
        (Error::invalid_configuration("x"), "invalid configuration: x"),
        (Error::other("x"), "x"),
    ];
    for (error, text) in cases {
        assert_eq!(error.to_string(), text);
    }
}

#[test]
fn errors_are_recognised_by_text() {
    let term = Error::TermMismatch { requested: 1, current: 2 };
    assert!(Error::NotALeader.is_not_leader_err() && Error::NotALeader.is_retriable());
    assert!(term.is_term_mismatch_err() && term.is_retriable());
    assert!(!term.is_not_leader_err() && !term.is_cas_err());
    // An error that came over the wire keeps nothing but its text.
    let remote = Error::Tarantool("server responded with error: not a leader".to_string());
    assert!(remote.is_not_leader_err() && remote.is_retriable());
    assert!(!Error::Timeout.is_retriable());
}

#[test]
fn a_failed_cas_is_retriable_by_its_cause() {
    let cas = |cause: &str| Error::Cas(cause.to_string());
    assert!(cas("").is_cas_err() && !cas("").is_retriable());
    assert!(cas("ConflictFound { index: 1 }").is_retriable());
    assert!(cas("Compacted { index: 1 }").is_retriable());
    assert!(!cas("EntryTermMismatch").is_retriable());
    assert!(cas("log unavailable").is_retriable());
}

#[test]
fn retriable_messages() {
    assert!(is_retriable_error_message("not a leader"));
    assert!(is_retriable_error_message("raft: log unavailable"));
    assert!(is_retriable_error_message("operation request from different term 1"));
    assert!(is_retriable_error_message("ConflictFound in compare-and-swap"));
    assert!(!is_retriable_error_message("ConflictFound"));
    assert!(!is_retriable_error_message("Compacted"));
    assert!(!is_retriable_error_message("compare-and-swap"));
    assert!(!is_retriable_error_message(""));
}

struct Disconnected {
    peer: u64,
}

impl From<Disconnected> for Error {
    fn from(err: Disconnected) -> Error {
        Error::AddressUnknownForRaftId(err.peer)
    }
}

#[test]
fn timeouts_become_errors() {
    assert_eq!(Error::from(TimeoutError::<Error>::Expired), Error::Timeout);
    assert_eq!(Error::from(TimeoutError::Failed(Error::NotALeader)), Error::NotALeader);
    let nested = TimeoutError::Failed(TimeoutError::Failed(Error::NotALeader));
    assert_eq!(Error::from(nested), Error::NotALeader);
    let expired_within = TimeoutError::Failed(TimeoutError::<Error>::Expired);
    assert_eq!(Error::from(expired_within), Error::Timeout);
    // Any cause that converts to an error will do.
    assert_eq!(
        Error::from(TimeoutError::Failed(Disconnected { peer: 7 })),
        Error::AddressUnknownForRaftId(7)
    );
    assert_eq!(Error::from(TimeoutError::<Disconnected>::Expired), Error::Timeout);
}
