//! What the middleware found out about a visitor, and its place on the request.

use http::Extensions;
use std::sync::Arc;
use vstd::prelude::*;

verus! {

/// `vpndetection::Lookup`, the answer of the API. It is only carried.
#[verifier::external_type_specification]
#[verifier::external_body]
pub struct ExAnswer(vpndetection::Lookup);

/// `vpndetection::Error`, the reason of a failure. It is only carried.
#[verifier::external_type_specification]
#[verifier::external_body]
pub struct ExError(vpndetection::Error);

/// `http::Extensions`, the values attached to a request, at most one of a type.
#[verifier::external_type_specification]
#[verifier::external_body]
pub struct ExExtensions(http::Extensions);

/// `vpndetection::Lookup` derives its `Clone` over fields that are plain data,
/// so a clone is the same answer.
pub assume_specification[ <vpndetection::Lookup as Clone>::clone ](
    answer: &vpndetection::Lookup,
) -> (copy: vpndetection::Lookup)
    ensures
        copy == *answer,
;

/// What a middleware attached to the request, whether or not the lookup
/// succeeded. It has the fields of `vpndetection::middleware::Lookup`, which is
/// what the request itself carries: another layer or a handler may read it there.
#[derive(Debug)]
pub struct Finding {
    /// Whether the visitor is to be refused.
    pub blocked: bool,
    /// The address that was classified, as the selector resolved it.
    pub ip: Option<String>,
    /// The answer. `None` when the lookup failed.
    pub result: Option<vpndetection::Lookup>,
    /// Why the lookup failed. `None` when it succeeded.
    pub error: Option<Arc<vpndetection::Error>>,
}

impl Clone for Finding {
    fn clone(&self) -> (copy: Self)
        ensures
            copy == *self,
    {
        let error = match &self.error {
            Some(error) => Some(Arc::clone(error)),
            None => None,
        };
        let copy = Finding {
            blocked: self.blocked,
            ip: self.ip.clone(),
            result: self.result.clone(),
            error,
        };
        assert(copy.ip == self.ip);
        assert(copy.result == self.result);
        copy
    }
}

/// The findings among the extensions of a request, where each is held as a
/// `vpndetection::middleware::Lookup` of the same fields. There is at most one,
/// as extensions hold one value of a type.
pub uninterp spec fn findings_in(extensions: Extensions) -> Seq<Finding>;

/// What the extensions hold besides a finding.
pub uninterp spec fn others_in(extensions: Extensions) -> Extensions;

/// The finding that a request carries in its extensions, if any.
pub open spec fn carried(extensions: Extensions) -> Option<Finding> {
    if findings_in(extensions).len() == 0 {
        None
    } else {
        Some(findings_in(extensions)[0])
    }
}

/// Calls `Extensions::get` for a `vpndetection::middleware::Lookup`, and copies
/// it field by field. It answers the value of that type if there is one.
#[verifier::external_body]
fn get_finding(extensions: &Extensions) -> (found: Option<Finding>)
    ensures
        match found {
            Some(found) => {
                &&& findings_in(*extensions).len() > 0
                &&& found == findings_in(*extensions)[0]
            },
            None => findings_in(*extensions).len() == 0,
        },
{
    extensions.get::<vpndetection::middleware::Lookup>().cloned().map(
        |found| Finding {
            blocked: found.blocked,
            ip: found.ip,
            result: found.result,
            error: found.error,
        },
    )
}

/// Calls `Extensions::insert` with a `vpndetection::middleware::Lookup` of the
/// fields of a finding. It takes the place of an earlier one, and values of
/// other types stay.
#[verifier::external_body]
fn insert_finding(extensions: &mut Extensions, found: Finding)
    ensures
        findings_in(*final(extensions)) == seq![found],
        others_in(*final(extensions)) == others_in(*old(extensions)),
{
    extensions.insert(
        vpndetection::middleware::Lookup {
            blocked: found.blocked,
            ip: found.ip,
            result: found.result,
            error: found.error,
        },
    );
}

/// Whether extensions differ by this finding alone: the later ones carry it,
/// and hold besides what the earlier ones held.
pub open spec fn attaches(before: Extensions, found: Finding, after: Extensions) -> bool {
    &&& carried(after) == Some(found)
    &&& findings_in(after) == seq![found]
    &&& others_in(after) == others_in(before)
}

/// Puts a finding on a request, for the handlers to read.
pub fn attach(extensions: &mut Extensions, found: Finding)
    ensures
        attaches(*old(extensions), found, *final(extensions)),
        findings_in(*final(extensions)) == seq![found],
        others_in(*final(extensions)) == others_in(*old(extensions)),
{
    insert_finding(extensions, found);
}

/// The finding a request carries, copied off it.
pub fn read(extensions: &Extensions) -> (found: Option<Finding>)
    ensures
        found == carried(*extensions),
        found is Some <==> findings_in(*extensions).len() > 0,
        found is Some ==> found->0 == findings_in(*extensions)[0],
{
    get_finding(extensions)
}

} // verus!
