//! The git-backed index lookup: consult the locally replicated index first,
//! and only when the version is absent there refresh the replica from its
//! remote origin once and re-check. The (unverified) driver reads the
//! replica and performs the refresh; the decisions stand here.
use vstd::prelude::*;

use crate::package::{spec_record_contains, CrateRecord, PackageRef};
use crate::package::record_contains;

verus! {

/// What the first, purely local phase of a git lookup decided.
pub enum GitLookupStep {
    /// The exact version is already in the local replica: the lookup is
    /// done, with no network call at all.
    FoundLocally,
    /// The version is absent locally: refresh the replica from its remote
    /// origin, then re-check the updated copy.
    RefreshAndRecheck,
}

/// First phase: consult the local replica, no network call.
pub fn git_check_local(local: &Option<CrateRecord>, package: &PackageRef) -> (r: GitLookupStep)
    ensures
        r is FoundLocally <==> spec_record_contains(local, package.version@),
        r is RefreshAndRecheck <==> !spec_record_contains(local, package.version@),
{
    if record_contains(local, &package.version) {
        GitLookupStep::FoundLocally
    } else {
        GitLookupStep::RefreshAndRecheck
    }
}

/// Second phase, entered only after the replica was refreshed: the final
/// presence answer, read from the now-updated local copy.
pub fn git_check_after_refresh(refreshed: &Option<CrateRecord>, package: &PackageRef) -> (r: bool)
    ensures
        r == spec_record_contains(refreshed, package.version@),
{
    record_contains(refreshed, &package.version)
}

/// The answer of the whole two-phase lookup, over the replica's record
/// before the refresh and (if one was needed) after it.
pub open spec fn spec_git_lookup(
    before: Option<CrateRecord>,
    after: Option<CrateRecord>,
    version: Seq<char>,
) -> bool {
    spec_record_contains(&before, version) || spec_record_contains(&after, version)
}

/// Law: for a version absent from the local replica, one lookup makes
/// exactly one refresh and answers from the refreshed copy: if the version
/// has reached the remote origin by then, the lookup returns true; if it
/// never appears, the lookup returns false — it does not block or retry
/// within itself.
pub proof fn lemma_git_refresh_visibility(
    before: Option<CrateRecord>,
    after: Option<CrateRecord>,
    version: Seq<char>,
)
    requires
        !spec_record_contains(&before, version),
    ensures
        spec_record_contains(&after, version) ==> spec_git_lookup(before, after, version),
        !spec_record_contains(&after, version) ==> !spec_git_lookup(before, after, version),
{
}

} // verus!
