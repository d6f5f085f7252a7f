//! Errors of the replicated log, and what callers read off their texts.
use vstd::prelude::*;
use vstd::string::*;

use crate::text::{
    contains, decimal, law_contained_is_what_occurs, lemma_contains_prefix, lemma_contains_suffix,
    occurs, push_decimal, quote, quoted, str_contains,
};

verus! {

/// The identifier of an instance in the raft group.
pub type RaftId = u64;

/// A raft term.
pub type RaftTerm = u64;

/// The identifier of an instance in the cluster.
#[derive(Clone, Debug, PartialEq, Eq)]
pub struct InstanceId(pub String);

/// An error. Errors of other components stand here by their texts.
#[derive(Clone, Debug, PartialEq, Eq)]
pub enum Error {
    Uninitialized,
    Timeout,
    Expelled,
    Raft(String),
    DowncastError { expected: &'static str, actual: &'static str },
    /// cluster_id of the joining instance mismatches the cluster_id of the cluster
    ClusterIdMismatch { instance_cluster_id: String, cluster_cluster_id: String },
    /// Instance was requested to configure replication with different replicaset.
    ReplicasetIdMismatch { instance_rsid: String, requested_rsid: String },
    /// The text is relied on by callers that see nothing but the text.
    TermMismatch { requested: RaftTerm, current: RaftTerm },
    /// The text is relied on by callers that see nothing but the text.
    NotALeader,
    Lua(String),
    Tarantool(String),
    NoInstanceWithRaftId(RaftId),
    NoInstanceWithInstanceId(InstanceId),
    AddressUnknownForRaftId(RaftId),
    AddressUnknownForInstanceId(InstanceId),
    AddressParseFailure(String),
    LeaderUnknown,
    GovernorStopped,
    Cas(String),
    Ddl(String),
    Sbroad(String),
    Transaction(String),
    StorageCorrupted { table: String, field: String },
    InvalidConfiguration(String),
    Other(String),
}

/// What a wait that is limited in time can end in, other than with a value.
#[derive(Clone, Debug, PartialEq, Eq)]
pub enum TimeoutError<E> {
    Expired,
    Failed(E),
}

impl Error {
    /// The text of the error.
    pub open spec fn message(self) -> Seq<char> {
        match self {
            Error::Uninitialized => "uninitialized yet"@,
            Error::Timeout => "timeout"@,
            Error::Expelled => "current instance is expelled from the cluster"@,
            Error::Raft(text) => text@,
            Error::DowncastError { expected, actual } => "downcast error: expected "@ + quoted(
                expected@,
            ) + ", actual: "@ + quoted(actual@),
            Error::ClusterIdMismatch { instance_cluster_id, cluster_cluster_id } =>
                "cluster_id mismatch: cluster_id of the instance = "@ + quoted(
                instance_cluster_id@,
            ) + ", cluster_id of the cluster = "@ + quoted(cluster_cluster_id@),
            Error::ReplicasetIdMismatch { instance_rsid, requested_rsid } =>
                "cannot replicate with different replicaset: expected "@ + quoted(instance_rsid@)
                + ", requested "@ + quoted(requested_rsid@),
            Error::TermMismatch { requested, current } =>
                "operation request from different term "@ + decimal(requested as nat)
                + ", current term is "@ + decimal(current as nat),
            Error::NotALeader => "not a leader"@,
            Error::Lua(text) => "lua error: "@ + text@,
            Error::Tarantool(text) => text@,
            Error::NoInstanceWithRaftId(id) => "instance with id "@ + decimal(id as nat)
                + " not found"@,
            Error::NoInstanceWithInstanceId(id) => "instance with id \""@ + id.0@
                + "\" not found"@,
            Error::AddressUnknownForRaftId(id) => "address of peer with id "@ + decimal(id as nat)
                + " not found"@,
            Error::AddressUnknownForInstanceId(id) => "address of peer with id \""@ + id.0@
                + "\" not found"@,
            Error::AddressParseFailure(text) => "address of peer is incorrectly formatted: "@
                + text@,
            Error::LeaderUnknown => "leader is unknown yet"@,
            Error::GovernorStopped => "governor has stopped"@,
            Error::Cas(text) => "compare-and-swap: "@ + text@,
            Error::Ddl(text) => text@,
            Error::Sbroad(text) => "sbroad: "@ + text@,
            Error::Transaction(text) => "transaction: "@ + text@,
            Error::StorageCorrupted { table, field } =>
                "storage corrupted: failed to decode field '"@ + field@ + "' from table '"@
                + table@ + "'"@,
            Error::InvalidConfiguration(text) => "invalid configuration: "@ + text@,
            Error::Other(text) => text@,
        }
    }

    /// An error that fits no other variant.
    pub fn other(error: &str) -> (r: Error)
        ensures
            r matches Error::Other(text) && text@ == error@,
    {
        Error::Other(error.to_owned())
    }

    pub fn invalid_configuration(msg: &str) -> (r: Error)
        ensures
            r matches Error::InvalidConfiguration(text) && text@ == msg@,
    {
        Error::InvalidConfiguration(msg.to_owned())
    }

    /// Writes the error out.
    pub fn to_string(&self) -> (r: String)
        ensures
            r@ == self.message(),
    {
        match self {
            Error::Uninitialized => "uninitialized yet".to_owned(),
            Error::Timeout => "timeout".to_owned(),
            Error::Expelled => "current instance is expelled from the cluster".to_owned(),
            Error::Raft(text) => text.clone(),
            Error::DowncastError { expected, actual } => {
                let mut out = "downcast error: expected ".to_owned();
                out.append(quote(expected).as_str());
                out.append(", actual: ");
                out.append(quote(actual).as_str());
                out
            },
            Error::ClusterIdMismatch { instance_cluster_id, cluster_cluster_id } => {
                let mut out = "cluster_id mismatch: cluster_id of the instance = ".to_owned();
                out.append(quote(instance_cluster_id.as_str()).as_str());
                out.append(", cluster_id of the cluster = ");
                out.append(quote(cluster_cluster_id.as_str()).as_str());
                out
            },
            Error::ReplicasetIdMismatch { instance_rsid, requested_rsid } => {
                let mut out = "cannot replicate with different replicaset: expected ".to_owned();
                out.append(quote(instance_rsid.as_str()).as_str());
                out.append(", requested ");
                out.append(quote(requested_rsid.as_str()).as_str());
                out
            },
            Error::TermMismatch { requested, current } => {
                let mut out = "operation request from different term ".to_owned();
                push_decimal(&mut out, *requested);
                out.append(", current term is ");
                push_decimal(&mut out, *current);
                out
            },
            Error::NotALeader => "not a leader".to_owned(),
            Error::Lua(text) => prefixed("lua error: ", text),
            Error::Tarantool(text) => text.clone(),
            Error::NoInstanceWithRaftId(id) => {
                let mut out = "instance with id ".to_owned();
                push_decimal(&mut out, *id);
                out.append(" not found");
                out
            },
            Error::NoInstanceWithInstanceId(id) => {
                let mut out = "instance with id \"".to_owned();
                out.append(id.0.as_str());
                out.append("\" not found");
                out
            },
            Error::AddressUnknownForRaftId(id) => {
                let mut out = "address of peer with id ".to_owned();
                push_decimal(&mut out, *id);
                out.append(" not found");
                out
            },
            Error::AddressUnknownForInstanceId(id) => {
                let mut out = "address of peer with id \"".to_owned();
                out.append(id.0.as_str());
                out.append("\" not found");
                out
            },
            Error::AddressParseFailure(text) => prefixed(
                "address of peer is incorrectly formatted: ",
                text,
            ),
            Error::LeaderUnknown => "leader is unknown yet".to_owned(),
            Error::GovernorStopped => "governor has stopped".to_owned(),
            Error::Cas(text) => prefixed("compare-and-swap: ", text),
            Error::Ddl(text) => text.clone(),
            Error::Sbroad(text) => prefixed("sbroad: ", text),
            Error::Transaction(text) => prefixed("transaction: ", text),
            Error::StorageCorrupted { table, field } => {
                let mut out = "storage corrupted: failed to decode field '".to_owned();
                out.append(field.as_str());
                out.append("' from table '");
                out.append(table.as_str());
                out.append("'");
                out
            },
            Error::InvalidConfiguration(text) => prefixed("invalid configuration: ", text),
            Error::Other(text) => text.clone(),
        }
    }

    /// Whether the text speaks of a failed compare-and-swap.
    pub fn is_cas_err(&self) -> (r: bool)
        ensures
            r == contains(self.message(), "compare-and-swap"@),
    {
        str_contains(self.to_string().as_str(), "compare-and-swap")
    }

    /// Whether the text speaks of a request from another term.
    pub fn is_term_mismatch_err(&self) -> (r: bool)
        ensures
            r == contains(self.message(), "operation request from different term"@),
    {
        str_contains(self.to_string().as_str(), "operation request from different term")
    }

    /// Whether the text says that the instance is not the leader.
    pub fn is_not_leader_err(&self) -> (r: bool)
        ensures
            r == contains(self.message(), "not a leader"@),
    {
        str_contains(self.to_string().as_str(), "not a leader")
    }

    /// Whether the operation may succeed when it is tried again.
    pub fn is_retriable(&self) -> (r: bool)
        ensures
            r == retriable_message(self.message()),
    {
        is_retriable_error_message(self.to_string().as_str())
    }
}

fn prefixed(prefix: &str, text: &String) -> (r: String)
    ensures
        r@ == prefix@ + text@,
{
    let mut out = prefix.to_owned();
    out.append(text.as_str());
    out
}

/// A text that tells of a passing condition: the leader or the term has changed, the log is
/// not there yet, or a compare-and-swap has met a conflict or a compacted log.
pub open spec fn retriable_message(msg: Seq<char>) -> bool {
    ||| contains(msg, "not a leader"@)
    ||| contains(msg, "log unavailable"@)
    ||| contains(msg, "operation request from different term"@)
    ||| contains(msg, "compare-and-swap"@) && (contains(msg, "Compacted"@) || contains(
        msg,
        "ConflictFound"@,
    ))
}

/// Whether an error with this text may go away when the operation is tried again.
pub fn is_retriable_error_message(msg: &str) -> (r: bool)
    ensures
        r == retriable_message(msg@),
{
    if str_contains(msg, "not a leader") || str_contains(msg, "log unavailable") || str_contains(
        msg,
        "operation request from different term",
    ) {
        return true;
    }
    if str_contains(msg, "compare-and-swap") {
        return str_contains(msg, "Compacted") || str_contains(msg, "ConflictFound");
    }
    false
}

/// `<T as From<T>>::from` of std: the argument comes back unchanged.
pub assume_specification<T>[ <T as core::convert::From<T>>::from ](t: T) -> (r: T)
    ensures
        r == t,
;

/// An expired wait is a timeout; a failed one is the error that its cause converts to.
impl<E: Into<Error>> From<TimeoutError<E>> for Error {
    fn from(err: TimeoutError<E>) -> (r: Error)
        ensures
            err is Expired ==> r == Error::Timeout,
            err matches TimeoutError::Failed(cause) ==> call_ensures(
                <E as Into<Error>>::into,
                (cause,),
                r,
            ),
    {
        match err {
            TimeoutError::Expired => Error::Timeout,
            TimeoutError::Failed(err) => err.into(),
        }
    }
}

impl<E: Into<Error>> vstd::std_specs::convert::FromSpecImpl<TimeoutError<E>> for Error {
    open spec fn obeys_from_spec() -> bool {
        <E as vstd::std_specs::convert::IntoSpec<Error>>::obeys_into_spec()
    }

    open spec fn from_spec(err: TimeoutError<E>) -> Error {
        match err {
            TimeoutError::Expired => Error::Timeout,
            TimeoutError::Failed(err) => <E as vstd::std_specs::convert::IntoSpec<
                Error,
            >>::into_spec(err),
        }
    }
}

/// A wait that failed with an error of the library is that error, and a wait within a wait
/// that failed with it is too.
pub proof fn law_failed_wait_is_its_error(error: Error, r: Error, nested: Error)
    requires
        call_ensures(
            <Error as From<TimeoutError<Error>>>::from,
            (TimeoutError::Failed(error),),
            r,
        ),
        call_ensures(
            <Error as From<TimeoutError<TimeoutError<Error>>>>::from,
            (TimeoutError::Failed(TimeoutError::Failed(error)),),
            nested,
        ),
    ensures
        r == error,
        nested == error,
{
}

/// A caller that sees only the text of an error still recognises it: not being the leader, a
/// request from another term and a failed compare-and-swap are told apart by their texts, and
/// the first two may be tried again.
pub proof fn law_errors_are_recognised_by_text(error: Error)
    ensures
        error is NotALeader ==> contains(error.message(), "not a leader"@) && retriable_message(
            error.message(),
        ),
        error is TermMismatch ==> contains(
            error.message(),
            "operation request from different term"@,
        ) && retriable_message(error.message()),
        error is Cas ==> contains(error.message(), "compare-and-swap"@),
{
    match error {
        Error::NotALeader => {
            lemma_contains_prefix("not a leader"@, Seq::empty());
            assert("not a leader"@ + Seq::empty() =~= "not a leader"@);
        },
        Error::TermMismatch { requested, current } => {
            let sought = "operation request from different term"@;
            let rest = " "@ + decimal(requested as nat) + ", current term is "@ + decimal(
                current as nat,
            );
            reveal_strlit("operation request from different term");
            reveal_strlit("operation request from different term ");
            reveal_strlit(" ");
            assert(error.message() =~= sought + rest);
            lemma_contains_prefix(sought, rest);
        },
        Error::Cas(text) => {
            let sought = "compare-and-swap"@;
            let rest = ": "@ + text@;
            reveal_strlit("compare-and-swap");
            reveal_strlit("compare-and-swap: ");
            reveal_strlit(": ");
            assert(error.message() =~= sought + rest);
            lemma_contains_prefix(sought, rest);
        },
        _ => {},
    }
}

/// A failed compare-and-swap may be tried again whenever its cause is a conflict or a
/// compacted log, or would by itself call for another try.
pub proof fn law_cas_error_is_retriable_by_cause(cause: String)
    requires
        contains(cause@, "ConflictFound"@) || contains(cause@, "Compacted"@) || retriable_message(
            cause@,
        ),
    ensures
        retriable_message(Error::Cas(cause).message()),
{
    law_errors_are_recognised_by_text(Error::Cas(cause));
    let head = "compare-and-swap: "@;
    if contains(cause@, "ConflictFound"@) {
        lemma_contains_suffix(head, cause@, "ConflictFound"@);
    } else if contains(cause@, "Compacted"@) {
        lemma_contains_suffix(head, cause@, "Compacted"@);
    } else if contains(cause@, "not a leader"@) {
        lemma_contains_suffix(head, cause@, "not a leader"@);
    } else if contains(cause@, "log unavailable"@) {
        lemma_contains_suffix(head, cause@, "log unavailable"@);
    } else {
        lemma_contains_suffix(head, cause@, "operation request from different term"@);
    }
}

/// A text is put together from fixed words and what the error holds, in this order: of two
/// terms the requested one comes first, of two identifiers that of the instance, and a text of
/// another component stands at the end.
pub proof fn law_text_tells_what_the_error_holds(error: Error, r: String)
    requires
        call_ensures(Error::to_string, (&error,), r),
    ensures
        match error {
            Error::TermMismatch { requested, current } => r@
                == "operation request from different term "@ + decimal(requested as nat)
                + ", current term is "@ + decimal(current as nat),
            Error::NoInstanceWithRaftId(id) => r@ == "instance with id "@ + decimal(id as nat)
                + " not found"@,
            Error::NoInstanceWithInstanceId(id) => r@ == "instance with id \""@ + id.0@
                + "\" not found"@,
            Error::AddressUnknownForRaftId(id) => r@ == "address of peer with id "@ + decimal(
                id as nat,
            ) + " not found"@,
            Error::AddressUnknownForInstanceId(id) => r@ == "address of peer with id \""@ + id.0@
                + "\" not found"@,
            Error::DowncastError { expected, actual } => r@ == "downcast error: expected "@
                + quoted(expected@) + ", actual: "@ + quoted(actual@),
            Error::ClusterIdMismatch { instance_cluster_id, cluster_cluster_id } => r@
                == "cluster_id mismatch: cluster_id of the instance = "@ + quoted(
                instance_cluster_id@,
            ) + ", cluster_id of the cluster = "@ + quoted(cluster_cluster_id@),
            Error::ReplicasetIdMismatch { instance_rsid, requested_rsid } => r@
                == "cannot replicate with different replicaset: expected "@ + quoted(instance_rsid@)
                + ", requested "@ + quoted(requested_rsid@),
            Error::StorageCorrupted { table, field } => r@
                == "storage corrupted: failed to decode field '"@ + field@ + "' from table '"@
                + table@ + "'"@,
            Error::AddressParseFailure(text) => r@
                == "address of peer is incorrectly formatted: "@ + text@,
            Error::Lua(text) => r@ == "lua error: "@ + text@,
            Error::Cas(text) => r@ == "compare-and-swap: "@ + text@,
            Error::Sbroad(text) => r@ == "sbroad: "@ + text@,
            Error::Transaction(text) => r@ == "transaction: "@ + text@,
            Error::InvalidConfiguration(text) => r@ == "invalid configuration: "@ + text@,
            Error::Raft(text) => r@ == text@,
            Error::Tarantool(text) => r@ == text@,
            Error::Ddl(text) => r@ == text@,
            Error::Other(text) => r@ == text@,
            _ => true,
        },
{
}

/// An error that holds nothing has a text of its own.
pub proof fn law_bare_errors_have_fixed_texts(error: Error, r: String)
    requires
        call_ensures(Error::to_string, (&error,), r),
    ensures
        error is Uninitialized ==> r@ == "uninitialized yet"@,
        error is Timeout ==> r@ == "timeout"@,
        error is Expelled ==> r@ == "current instance is expelled from the cluster"@,
        error is NotALeader ==> r@ == "not a leader"@,
        error is LeaderUnknown ==> r@ == "leader is unknown yet"@,
        error is GovernorStopped ==> r@ == "governor has stopped"@,
{
}

/// An error made of a text has this text, and an invalid configuration has it at the end.
pub proof fn law_errors_made_of_a_text_have_it(
    text: &str,
    other: Error,
    configuration: Error,
    of_other: String,
    of_configuration: String,
)
    requires
        call_ensures(Error::other, (text,), other),
        call_ensures(Error::invalid_configuration, (text,), configuration),
        call_ensures(Error::to_string, (&other,), of_other),
        call_ensures(Error::to_string, (&configuration,), of_configuration),
    ensures
        other is Other && of_other@ == text@,
        configuration is InvalidConfiguration && of_configuration@ == "invalid configuration: "@
            + text@,
{
}

/// What an error is recognised by occurs in its text, and whatever it occurs in is recognised;
/// whether to try again is read off the text alone.
pub proof fn law_errors_are_judged_by_their_text(
    error: Error,
    text: String,
    message: &str,
    cas: bool,
    term: bool,
    leader: bool,
    retriable: bool,
    of_message: bool,
)
    requires
        call_ensures(Error::to_string, (&error,), text),
        message@ == text@,
        call_ensures(Error::is_cas_err, (&error,), cas),
        call_ensures(Error::is_term_mismatch_err, (&error,), term),
        call_ensures(Error::is_not_leader_err, (&error,), leader),
        call_ensures(Error::is_retriable, (&error,), retriable),
        call_ensures(is_retriable_error_message, (message,), of_message),
    ensures
        cas <==> occurs("compare-and-swap"@, text@),
        term <==> occurs("operation request from different term"@, text@),
        leader <==> occurs("not a leader"@, text@),
        retriable == of_message,
        leader || term ==> retriable,
{
    law_contained_is_what_occurs(text@, "compare-and-swap"@);
    law_contained_is_what_occurs(text@, "operation request from different term"@);
    law_contained_is_what_occurs(text@, "not a leader"@);
}

/// To try again takes a word of a lost leader, another term or a missing log, or of a
/// compare-and-swap together with one of a conflict or a compacted log; and any of these does.
pub proof fn law_trying_again_takes_a_passing_cause(msg: &str, r: bool)
    requires
        call_ensures(is_retriable_error_message, (msg,), r),
    ensures
        occurs("not a leader"@, msg@) ==> r,
        occurs("log unavailable"@, msg@) ==> r,
        occurs("operation request from different term"@, msg@) ==> r,
        occurs("compare-and-swap"@, msg@) && occurs("Compacted"@, msg@) ==> r,
        occurs("compare-and-swap"@, msg@) && occurs("ConflictFound"@, msg@) ==> r,
        r ==> occurs("not a leader"@, msg@) || occurs("log unavailable"@, msg@) || occurs(
            "operation request from different term"@,
            msg@,
        ) || occurs("compare-and-swap"@, msg@),
        r && !occurs("not a leader"@, msg@) && !occurs("log unavailable"@, msg@) && !occurs(
            "operation request from different term"@,
            msg@,
        ) ==> occurs("Compacted"@, msg@) || occurs("ConflictFound"@, msg@),
{
    law_contained_is_what_occurs(msg@, "not a leader"@);
    law_contained_is_what_occurs(msg@, "log unavailable"@);
    law_contained_is_what_occurs(msg@, "operation request from different term"@);
    law_contained_is_what_occurs(msg@, "compare-and-swap"@);
    law_contained_is_what_occurs(msg@, "Compacted"@);
    law_contained_is_what_occurs(msg@, "ConflictFound"@);
}

/// A wait that expired is a timeout, whatever could have failed in it.
pub proof fn law_expired_wait_is_a_timeout<E: Into<Error>>(r: Error)
    requires
        call_ensures(<Error as From<TimeoutError<E>>>::from, (TimeoutError::Expired,), r),
    ensures
        r is Timeout,
{
}

} // verus!
