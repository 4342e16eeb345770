//! The polling loop that waits for a package to become visible: repeat a
//! bounded check until the version is present or an overall deadline
//! elapses, sleeping a fixed pause between attempts and emitting a one-time
//! progress notice. The (unverified) driver performs the check and the
//! sleep; this machine makes every decision.
use vstd::prelude::*;

use crate::errors::CheckError;
use crate::package::PackageRef;

verus! {

/// The fixed pause between poll attempts, in milliseconds.
pub const POLL_PAUSE_MS: u64 = 2000;

/// How one bounded publication check ended. A check is exactly one of
/// these: present, absent (retryable by polling), or a terminal failure —
/// never both a presence answer and a failure.
pub enum CheckOutcome {
    /// The version is visible in the index.
    Present,
    /// The version is not visible yet; polling may retry.
    Absent,
    /// A terminal failure: network, parse or per-check timeout. Aborts the
    /// poll loop; never treated as "not yet published".
    Failed(CheckError),
}

/// Loop-local state: whether the one-time waiting notice has been emitted
/// in this invocation.
pub struct PollState {
    pub notice_emitted: bool,
}

/// What the poll driver must do after one check.
pub enum PollStep {
    /// Terminal, success: the package is published.
    Published,
    /// Terminal: abort the loop with this failure.
    Abort(CheckError),
    /// Sleep the fixed pause and check again; emit the one-time waiting
    /// notice first if `emit_notice` is set.
    SleepThenRetry { emit_notice: bool },
}

/// The fresh state at the start of one `wait_until_published` invocation.
pub fn poll_start() -> (s: PollState)
    ensures
        !s.notice_emitted,
{
    PollState { notice_emitted: false }
}

/// Does the loop go on after this check? Only an explicit "absent" answer
/// while the elapsed time is still within the total bound continues; a
/// presence answer, a failure, and an expired bound are all terminal.
pub open spec fn spec_continues(outcome: CheckOutcome, elapsed_ms: u64, total_timeout_ms: u64) -> bool {
    outcome is Absent && elapsed_ms <= total_timeout_ms
}

/// One iteration of the poll loop.
///
/// `elapsed_ms` is the time elapsed since the loop began, read after the
/// check; `total_timeout_ms` is the caller-supplied overall bound. The
/// notice is requested exactly on the first continuing iteration, and the
/// state records that it has been emitted from then on.
pub fn poll_step(
    state: &PollState,
    outcome: CheckOutcome,
    elapsed_ms: u64,
    total_timeout_ms: u64,
    package: &PackageRef,
) -> (r: (PollState, PollStep))
    ensures
        outcome is Present ==> r.1 is Published,
        outcome matches CheckOutcome::Failed(e) ==> (r.1 matches PollStep::Abort(a) && a == e),
        (outcome is Absent && elapsed_ms > total_timeout_ms) ==> (r.1 matches PollStep::Abort(a)
            && a matches CheckError::Timeout { package_name, timeout_secs } && package_name@
            == package.name@ && timeout_secs == total_timeout_ms / 1000),
        (r.1 is SleepThenRetry) == spec_continues(outcome, elapsed_ms, total_timeout_ms),
        (r.1 matches PollStep::SleepThenRetry { emit_notice } ==> emit_notice == !state.notice_emitted),
        r.0.notice_emitted == (state.notice_emitted || spec_continues(
            outcome,
            elapsed_ms,
            total_timeout_ms,
        )),
{
    match outcome {
        CheckOutcome::Present => (PollState { notice_emitted: state.notice_emitted }, PollStep::Published),
        CheckOutcome::Failed(e) => (
            PollState { notice_emitted: state.notice_emitted },
            PollStep::Abort(e),
        ),
        CheckOutcome::Absent => {
            if elapsed_ms > total_timeout_ms {
                let err = CheckError::Timeout {
                    package_name: package.name.clone(),
                    timeout_secs: total_timeout_ms / 1000,
                };
                (PollState { notice_emitted: state.notice_emitted }, PollStep::Abort(err))
            } else {
                (
                    PollState { notice_emitted: true },
                    PollStep::SleepThenRetry { emit_notice: !state.notice_emitted },
                )
            }
        },
    }
}

/// How many times a run of the loop emits the waiting notice, iterating
/// the machine over the checks' outcomes and observation times, from a
/// state where the notice flag stands at `notice0`. This is `poll_step`
/// folded over the run: an iteration emits exactly when it continues and
/// the flag is not yet set, and a continuing iteration sets the flag.
pub open spec fn spec_emit_count(
    events: Seq<(CheckOutcome, u64)>,
    total_timeout_ms: u64,
    notice0: bool,
) -> nat
    decreases events.len(),
{
    if events.len() == 0 {
        0
    } else {
        let continues = spec_continues(events[0].0, events[0].1, total_timeout_ms);
        let emitted: nat = if continues && !notice0 {
            1
        } else {
            0
        };
        emitted + spec_emit_count(events.drop_first(), total_timeout_ms, notice0 || continues)
    }
}

/// Once the notice flag is set, no iteration of the run emits again.
proof fn lemma_no_emit_after_notice(events: Seq<(CheckOutcome, u64)>, total_timeout_ms: u64)
    ensures
        spec_emit_count(events, total_timeout_ms, true) == 0,
    decreases events.len(),
{
    if events.len() > 0 {
        lemma_no_emit_after_notice(events.drop_first(), total_timeout_ms);
    }
}

/// Law: the one-time waiting notice is emitted at most once per invocation,
/// however many poll iterations the run has and however the checks end.
pub proof fn lemma_notice_at_most_once(events: Seq<(CheckOutcome, u64)>, total_timeout_ms: u64)
    ensures
        spec_emit_count(events, total_timeout_ms, false) <= 1,
    decreases events.len(),
{
    if events.len() > 0 {
        let continues = spec_continues(events[0].0, events[0].1, total_timeout_ms);
        if continues {
            lemma_no_emit_after_notice(events.drop_first(), total_timeout_ms);
        } else {
            lemma_notice_at_most_once(events.drop_first(), total_timeout_ms);
        }
    }
}

/// Is every iteration of the run a continuing one — that is, has the loop
/// neither succeeded, nor failed, nor expired anywhere in the run?
pub open spec fn spec_run_live(events: Seq<(CheckOutcome, u64)>, total_timeout_ms: u64) -> bool {
    forall|i: int|
        0 <= i < events.len() ==> spec_continues(events[i].0, events[i].1, total_timeout_ms)
}

/// Law: the loop terminates in finite time. In a run whose iteration `i` is
/// observed at least `i` pauses after the loop began — each iteration
/// sleeps the fixed pause — at most `total_timeout_ms / POLL_PAUSE_MS + 1`
/// iterations can continue: past that bound the elapsed time exceeds the
/// total bound and `poll_step` is terminal (a timeout abort at the latest),
/// and a presence answer or a failure is terminal at once.
pub proof fn lemma_poll_terminates(events: Seq<(CheckOutcome, u64)>, total_timeout_ms: u64)
    requires
        spec_run_live(events, total_timeout_ms),
        forall|i: int| 0 <= i < events.len() ==> events[i].1 >= i * (POLL_PAUSE_MS as int),
    ensures
        events.len() <= total_timeout_ms / POLL_PAUSE_MS + 1,
{
    if events.len() > total_timeout_ms / POLL_PAUSE_MS + 1 {
        let d = (total_timeout_ms / 2000) as int;
        let m = (total_timeout_ms % 2000) as int;
        let t = total_timeout_ms as int;
        assert(t == d * 2000 + m && 0 <= m < 2000);
        let i = d + 1;
        assert(0 <= i < events.len());
        assert(spec_continues(events[i].0, events[i].1, total_timeout_ms));
        assert(events[i].1 >= i * (POLL_PAUSE_MS as int));
        assert(i * 2000 == d * 2000 + 2000);
        assert(events[i].1 > total_timeout_ms);
        assert(false);
    }
}

} // verus!
