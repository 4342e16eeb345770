//! The package identity being checked and the registry's view of a package.
use vstd::prelude::*;

verus! {

/// Identifies what is being checked: a package name together with the exact
/// version string whose publication is awaited. Created by the caller before
/// any check; never mutated.
pub struct PackageRef {
    pub name: String,
    pub version: String,
}

/// The registry's view of one package: the ordered collection of published
/// version strings for one package name. Produced by parsing a registry
/// response or reading a local index replica; consumed immediately to test
/// membership.
pub struct CrateRecord {
    pub name: String,
    pub versions: Vec<String>,
}

/// The version strings of a record, as mathematical sequences of characters.
pub open spec fn record_versions(record: &CrateRecord) -> Seq<Seq<char>> {
    record.versions@.map_values(|v: String| v@)
}

/// Exact-string membership: version `v` is present in `record` iff some
/// published version string equals `v` character for character. No
/// semantic-range matching takes place.
pub open spec fn spec_version_present(record: &CrateRecord, v: Seq<char>) -> bool {
    exists|i: int| 0 <= i < record.versions@.len() && record.versions@[i]@ == v
}

/// Does `record` list exactly the version string `version`?
///
/// Matching is exact string equality: a record containing "1.0.0" does not
/// match a lookup for "1.0.0-rc.1" or "v1.0.0".
pub fn is_version_present(version: &String, record: &CrateRecord) -> (r: bool)
    ensures
        r == spec_version_present(record, version@),
{
    let n = record.versions.len();
    let mut i: usize = 0;
    while i < n
        invariant
            0 <= i <= n,
            n == record.versions@.len(),
            forall|j: int| 0 <= j < i ==> record.versions@[j]@ != version@,
        decreases n - i,
    {
        if record.versions[i].eq(version) {
            return true;
        }
        i += 1;
    }
    false
}

/// Membership test lifted to an optional record: an unknown package (no
/// record at all) contains no version.
pub open spec fn spec_record_contains(record: &Option<CrateRecord>, v: Seq<char>) -> bool {
    match record {
        Some(r) => spec_version_present(r, v),
        None => false,
    }
}

/// Does the (possibly absent) record list `version`? An absent record means
/// the registry does not know the package at all, which is a valid "not
/// published" answer, not an error.
pub fn record_contains(record: &Option<CrateRecord>, version: &String) -> (r: bool)
    ensures
        r == spec_record_contains(record, version@),
{
    match record {
        Some(rec) => is_version_present(version, rec),
        None => false,
    }
}

} // verus!
