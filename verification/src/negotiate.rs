//! Protocol negotiation for a sparse-index fetch: prefer HTTP/2 with prior
//! knowledge, and on a connection-level failure or a session-termination
//! signal retry exactly once over HTTP/1.1. The (unverified) transport
//! layer classifies each failure into a flat tagged reason and drives this
//! machine; the machine alone decides whether a retry happens.
use vstd::prelude::*;

verus! {

/// The HTTP protocol version of one fetch attempt.
#[derive(Clone, Copy, Debug, PartialEq, Eq, Structural)]
pub enum HttpVersion {
    /// HTTP/2 with prior knowledge: no upgrade negotiation round-trip.
    Http2,
    /// HTTP/1.1 with standard negotiation.
    Http11,
}

/// The flat classification of a failed fetch attempt, produced once at the
/// transport boundary instead of letting callers walk a chain of causes.
#[derive(Clone, Copy, Debug, PartialEq, Eq, Structural)]
pub enum FailureKind {
    /// A transport-level connection failure, usually a server that does not
    /// speak the attempted protocol at all.
    ConnectFailed,
    /// A protocol-level session-termination signal, the HTTP/2 GOAWAY
    /// frame, from a server that advertises HTTP/2 but drops the session.
    ProtocolRejected,
    /// Any other failure: auth rejection, malformed URL, and the like.
    Other,
}

/// How one fetch attempt ended: the server delivered a response (of any
/// status), or the attempt failed with a classified reason.
#[derive(Clone, Copy, Debug, PartialEq, Eq, Structural)]
pub enum AttemptOutcome {
    Delivered,
    Failed(FailureKind),
}

/// A failure warrants the one protocol downgrade exactly when it is a
/// connection-level failure or a session-termination signal; every other
/// failure class propagates without a retry.
pub open spec fn spec_downgrade_worthy(k: FailureKind) -> bool {
    k is ConnectFailed || k is ProtocolRejected
}

/// Does this failure warrant the single downgrade retry?
pub fn downgrade_worthy(k: &FailureKind) -> (r: bool)
    ensures
        r == spec_downgrade_worthy(*k),
{
    match k {
        FailureKind::ConnectFailed => true,
        FailureKind::ProtocolRejected => true,
        FailureKind::Other => false,
    }
}

/// Where a negotiation stands.
#[derive(Clone, Copy, Debug, PartialEq, Eq, Structural)]
pub enum NegotiationState {
    /// No attempt made yet: the next attempt is the preferred protocol.
    Start,
    /// The preferred attempt failed for a downgrade-worthy reason: the next
    /// attempt is the last, over the lower protocol.
    Downgraded,
    /// No further attempt may be made.
    Concluded,
}

/// What the transport driver must do after an attempt.
#[derive(Clone, Copy, Debug, PartialEq, Eq, Structural)]
pub enum NegotiationDirective {
    /// Send the identical request once more, forced to HTTP/1.1 with
    /// standard negotiation.
    RetryWithHttp11,
    /// The server answered: hand the response to the response interpreter.
    UseResponse,
    /// Report a transport failure to the caller.
    FailIo,
}

/// The protocol version an attempt in this state must use; `None` once the
/// negotiation has concluded.
pub open spec fn spec_attempt_version(state: NegotiationState) -> Option<HttpVersion> {
    match state {
        NegotiationState::Start => Option::Some(HttpVersion::Http2),
        NegotiationState::Downgraded => Option::Some(HttpVersion::Http11),
        NegotiationState::Concluded => Option::None,
    }
}

/// The protocol version to use for the next attempt: HTTP/2 with prior
/// knowledge first, HTTP/1.1 for the one retry, nothing once concluded.
pub fn attempt_version(state: &NegotiationState) -> (r: Option<HttpVersion>)
    ensures
        r == spec_attempt_version(*state),
{
    match state {
        NegotiationState::Start => Option::Some(HttpVersion::Http2),
        NegotiationState::Downgraded => Option::Some(HttpVersion::Http11),
        NegotiationState::Concluded => Option::None,
    }
}

/// The negotiation transition: what the state becomes and what the driver
/// does, given how the attempt made in `state` ended.
pub open spec fn spec_negotiation_step(state: NegotiationState, outcome: AttemptOutcome) -> (
    NegotiationState,
    NegotiationDirective,
) {
    match outcome {
        AttemptOutcome::Delivered => (NegotiationState::Concluded, NegotiationDirective::UseResponse),
        AttemptOutcome::Failed(k) => if state is Start && spec_downgrade_worthy(k) {
            (NegotiationState::Downgraded, NegotiationDirective::RetryWithHttp11)
        } else {
            (NegotiationState::Concluded, NegotiationDirective::FailIo)
        },
    }
}

/// Advance the negotiation after one attempt.
///
/// A delivered response always concludes the negotiation. A failure of the
/// preferred attempt retries once over HTTP/1.1 exactly when it is
/// downgrade-worthy; a failure of the downgraded attempt, or a failure of
/// any other class, concludes with a transport error.
pub fn negotiation_step(state: &NegotiationState, outcome: &AttemptOutcome) -> (r: (
    NegotiationState,
    NegotiationDirective,
))
    requires
        !(state is Concluded),
    ensures
        r == spec_negotiation_step(*state, *outcome),
{
    match outcome {
        AttemptOutcome::Delivered => (NegotiationState::Concluded, NegotiationDirective::UseResponse),
        AttemptOutcome::Failed(k) => {
            let worthy = downgrade_worthy(k);
            if matches!(state, NegotiationState::Start) && worthy {
                (NegotiationState::Downgraded, NegotiationDirective::RetryWithHttp11)
            } else {
                (NegotiationState::Concluded, NegotiationDirective::FailIo)
            }
        },
    }
}

/// Law: the first attempt is HTTP/2; if it fails with a connection-level
/// error or a session-termination signal, exactly one retry is made, over
/// HTTP/1.1, and the negotiation concludes after the second attempt
/// whatever its outcome — no further retries occur.
pub proof fn lemma_single_downgrade_retry(first: AttemptOutcome, second: AttemptOutcome)
    requires
        first matches AttemptOutcome::Failed(k) && spec_downgrade_worthy(k),
    ensures
        spec_attempt_version(NegotiationState::Start) == Option::Some(HttpVersion::Http2),
        spec_negotiation_step(NegotiationState::Start, first).1 is RetryWithHttp11,
        spec_attempt_version(spec_negotiation_step(NegotiationState::Start, first).0)
            == Option::Some(HttpVersion::Http11),
        spec_negotiation_step(spec_negotiation_step(NegotiationState::Start, first).0, second).0
            is Concluded,
        !(spec_negotiation_step(spec_negotiation_step(NegotiationState::Start, first).0, second).1
            is RetryWithHttp11),
{
}

/// Law: a failure of the preferred attempt that is neither a connection
/// failure nor a session-termination signal propagates without any retry,
/// and a delivered response never triggers a retry.
pub proof fn lemma_no_retry_otherwise(outcome: AttemptOutcome)
    requires
        match outcome {
            AttemptOutcome::Failed(k) => !spec_downgrade_worthy(k),
            AttemptOutcome::Delivered => true,
        },
    ensures
        spec_negotiation_step(NegotiationState::Start, outcome).0 is Concluded,
        !(spec_negotiation_step(NegotiationState::Start, outcome).1 is RetryWithHttp11),
{
}

} // verus!
