//! Interpreting a sparse-index HTTP response: decide "published", "absent"
//! or "malformed" from the status code and the (decompressed) body.
use vstd::prelude::*;

use crate::errors::CheckError;
use crate::package::{record_versions, spec_record_contains, CrateRecord, PackageRef};
use crate::package::record_contains;

verus! {

/// The version strings that the registry index body parses to, or `None`
/// if the body is not a decodable index record.
pub uninterp spec fn parsed_versions_of(bytes: Seq<u8>) -> Option<Seq<Seq<char>>>;

/// Relies on crates_index::Crate::from_slice: parses a JSON-lines registry
/// index body into the list of published version strings; the result is a
/// function of the bytes alone, and an undecodable body is an error.
#[verifier::external_body]
fn parse_record_body(body: &Vec<u8>) -> (r: Option<Vec<String>>)
    ensures
        match r {
            Option::Some(v) => parsed_versions_of(body@) == Option::Some(v.deep_view()),
            Option::None => parsed_versions_of(body@) is None,
        },
{
    let krate = crates_index::Crate::from_slice(body).ok()?;
    Some(krate.versions().iter().map(|v| v.version().to_string()).collect())
}

/// Is the status a success, so that the body carries an index record?
pub open spec fn spec_success_status(status: u16) -> bool {
    200 <= status < 300
}

/// Interpret a sparse-index response for `package_name`.
///
/// A success status carries an index record in the body: an undecodable
/// body fails with `CheckError::Parse`, immediately and without a retry.
/// Any other status — the resource is absent or the server declined — is
/// "package not found", a valid absent answer rather than an error.
pub fn interpret_sparse_response(status: u16, body: &Vec<u8>, package_name: &String) -> (r: Result<
    Option<CrateRecord>,
    CheckError,
>)
    ensures
        spec_success_status(status) ==> match parsed_versions_of(body@) {
            Option::Some(vs) => r matches Ok(Option::Some(rec)) && record_versions(&rec) == vs
                && rec.name@ == package_name@,
            Option::None => r matches Err(e) && e is Parse,
        },
        !spec_success_status(status) ==> (r matches Ok(o) && o is None),
{
    if 200 <= status && status < 300 {
        match parse_record_body(body) {
            Option::Some(versions) => Ok(
                Option::Some(CrateRecord { name: package_name.clone(), versions }),
            ),
            Option::None => Err(CheckError::Parse),
        }
    } else {
        Ok(Option::None)
    }
}

/// The sparse-index membership decision for one fetched response: true
/// exactly when a decodable record from a success status lists the exact
/// version string of `package`.
pub fn sparse_lookup(status: u16, body: &Vec<u8>, package: &PackageRef) -> (r: Result<
    bool,
    CheckError,
>)
    ensures
        spec_success_status(status) ==> match parsed_versions_of(body@) {
            Option::Some(vs) => r matches Ok(present) && present == vs.contains(
                package.version@,
            ),
            Option::None => r matches Err(e) && e is Parse,
        },
        !spec_success_status(status) ==> (r matches Ok(present) && !present),
{
    let outcome = interpret_sparse_response(status, body, &package.name);
    match outcome {
        Ok(record) => {
            let present = record_contains(&record, &package.version);
            proof {
                if spec_success_status(status) && parsed_versions_of(body@) is Some {
                    let vs = parsed_versions_of(body@)->0;
                    let rec = record->0;
                    assert(record_versions(&rec) == vs);
                    assert(present == spec_record_contains(&record, package.version@));
                    if present {
                        let i = choose|i: int|
                            0 <= i < rec.versions@.len() && rec.versions@[i]@ == package.version@;
                        assert(record_versions(&rec)[i] == package.version@);
                    }
                    if vs.contains(package.version@) {
                        let i = choose|i: int| 0 <= i < vs.len() && vs[i] == package.version@;
                        assert(rec.versions@[i]@ == record_versions(&rec)[i]);
                    }
                }
            }
            Ok(present)
        },
        Err(e) => Err(e),
    }
}

} // verus!
