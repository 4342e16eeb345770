//! The bounded publication check: one index lookup wrapped in a hard
//! per-check bound. The (unverified) driver races the lookup against the
//! bound; the mapping from what it observes to a check outcome is decided
//! here, so that a result is presence, absence or a failure — never two at
//! once.
use vstd::prelude::*;

use crate::errors::CheckError;
use crate::package::PackageRef;
use crate::poll::CheckOutcome;

verus! {

/// Map one lookup result to a check outcome: a presence answer becomes
/// `Present` or `Absent`, a failure is passed through untouched — the poll
/// loop never converts a hard error into "not yet published".
pub fn outcome_of_lookup(r: Result<bool, CheckError>) -> (o: CheckOutcome)
    ensures
        r matches Ok(present) ==> (if present {
            o is Present
        } else {
            o is Absent
        }),
        r matches Err(e) ==> (o matches CheckOutcome::Failed(f) && f == e),
{
    match r {
        Ok(true) => CheckOutcome::Present,
        Ok(false) => CheckOutcome::Absent,
        Err(e) => CheckOutcome::Failed(e),
    }
}

/// The failure when one lookup did not complete before the per-check bound:
/// a timeout carrying the package identity and the configured bound, for a
/// user-actionable message.
pub fn check_timed_out(package: &PackageRef, timeout_secs: u64) -> (e: CheckError)
    ensures
        e matches CheckError::Timeout { package_name, timeout_secs: t } && package_name@
            == package.name@ && t == timeout_secs,
{
    CheckError::Timeout { package_name: package.name.clone(), timeout_secs }
}

} // verus!
