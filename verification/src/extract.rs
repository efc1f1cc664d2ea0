//! What a handler takes off its request to learn about the visitor.

use crate::finding::{carried, read, Finding};
use crate::message::{fault, is_plain_text};
use axum::response::Response;
use http::Extensions;
use vstd::prelude::*;

verus! {

/// What the middleware found out about this visitor.
///
/// Rejects with `500` when the middleware did not run for this route, which is
/// a wiring mistake rather than something a visitor can cause. Use
/// [`MaybeFound`] on a route that is deliberately outside the layer, or one
/// that `skip` claims.
#[derive(Debug)]
pub struct Found(pub Finding);

/// [`Found`], for a route where the middleware may not have run.
#[derive(Debug)]
pub struct MaybeFound(pub Option<Finding>);

/// The answer to a request for a finding where there is none.
pub open spec fn is_rejection(response: Response) -> bool {
    is_plain_text(
        response,
        500,
        "vpndetection: this route is not behind the VPNDetection layer, or `skip` claimed the request; extract MaybeFound instead"@,
    )
}

/// Whether a request with these extensions may hand its handler this.
pub open spec fn extracts(extensions: Extensions, found: Result<Found, Response>) -> bool {
    match (carried(extensions), found) {
        (Some(finding), Ok(found)) => found.0 == finding,
        (None, Err(response)) => is_rejection(response),
        _ => false,
    }
}

impl Found {
    /// The finding that the request carries, or the rejection.
    pub fn from_extensions(extensions: &Extensions) -> (found: Result<Self, Response>)
        ensures
            extracts(*extensions, found),
    {
        match read(extensions) {
            Some(finding) => Ok(Found(finding)),
            None => {
                let reason =
                    "vpndetection: this route is not behind the VPNDetection layer, or `skip` claimed the request; extract MaybeFound instead";
                Err(fault(reason.to_owned()))
            },
        }
    }
}

impl MaybeFound {
    /// The finding that the request carries, if any.
    pub fn from_extensions(extensions: &Extensions) -> (found: Self)
        ensures
            found.0 == carried(*extensions),
    {
        MaybeFound(read(extensions))
    }
}

impl Clone for Found {
    fn clone(&self) -> (copy: Self)
        ensures
            copy == *self,
    {
        Found(self.0.clone())
    }
}

impl Clone for MaybeFound {
    fn clone(&self) -> (copy: Self)
        ensures
            copy == *self,
    {
        match &self.0 {
            Some(finding) => MaybeFound(Some(finding.clone())),
            None => MaybeFound(None),
        }
    }
}

} // verus!
