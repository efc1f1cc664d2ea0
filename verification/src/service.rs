//! A service behind the middleware, and the decisions it takes on one request.
//!
//! A request passes three stages. On arrival it is either left alone or handed
//! to the classifier. A classifier answers after a wait on the network, which is
//! no business of this module. What it answered settles whether the request
//! goes on, with the finding attached, or is answered on the spot.

use crate::finding::Finding;
use crate::guard::{Policy, VPNDetection};
use crate::message::{fault, is_plain_text};
use axum::response::Response;
use http::request::Parts;
use vpndetection::middleware::Core;
use vstd::prelude::*;

verus! {

/// A service, and the policy in front of it.
#[verifier::ext_equal]
pub struct Layered<S> {
    pub inner: S,
    pub policy: Policy,
}

/// What to do with a request that arrives.
#[derive(Debug, Clone, Copy, PartialEq, Eq, Structural)]
pub enum Arrival {
    /// Hand it to the inner service as it came.
    Forward,
    /// Have it classified, and settle what becomes of it.
    Classify,
}

/// What to do with a request that was classified.
#[derive(Debug)]
pub enum Verdict {
    /// Attach the finding, and hand the request to the inner service.
    Forward(Finding),
    /// Answer. The inner service never sees the request.
    Respond(Response),
}

/// Whether a request may be taken this way on arrival.
pub open spec fn arrives(policy: Policy, parts: Parts, arrival: Arrival) -> bool {
    (policy.says)(parts, arrival is Forward)
}

/// Whether a classified request may be settled this way.
///
/// A failed lookup is a finding like any other. An error is a fault in the
/// configuration of the classifier.
pub open spec fn settles(
    policy: Policy,
    parts: Parts,
    found: Result<Finding, String>,
    verdict: Verdict,
) -> bool {
    match found {
        Err(reason) => verdict matches Verdict::Respond(response) && is_plain_text(
            response,
            500,
            reason@,
        ),
        Ok(found) => if found.blocked {
            verdict matches Verdict::Respond(response) && (policy.answers)(parts, found, response)
        } else {
            verdict == Verdict::Forward(found)
        },
    }
}

/// What [`VPNDetection`] wraps a service in.
pub struct VPNDetectionService<S> {
    inner: S,
    guard: VPNDetection,
}

impl<S> View for VPNDetectionService<S> {
    type V = Layered<S>;

    closed spec fn view(&self) -> Layered<S> {
        Layered { inner: self.inner, policy: self.guard@ }
    }
}

impl<S> VPNDetectionService<S> {
    pub(crate) fn new(inner: S, guard: VPNDetection) -> (service: Self)
        ensures
            service@ == (Layered { inner, policy: guard@ }),
    {
        VPNDetectionService { inner, guard }
    }

    /// The inner service, to be polled for readiness or called.
    pub fn inner_mut(&mut self) -> (inner: &mut S)
        ensures
            *inner == old(self)@.inner,
            final(self)@ == (Layered { inner: *final(inner), ..old(self)@ }),
    {
        &mut self.inner
    }

    /// The classifier, for the call that awaits the network.
    pub fn classifier(&self) -> (engine: &Core)
        ensures
            *engine == self@.policy.engine,
    {
        self.guard.classifier()
    }

    /// Takes the service that was polled ready, for one request, and leaves a
    /// clone of it behind for the next.
    ///
    /// It is the one polled that must be called: a clone may not be ready.
    pub fn take_ready(&mut self) -> (ready: Self) where S: Clone
        ensures
            ready@ == old(self)@,
            final(self)@.policy == old(self)@.policy,
            cloned(old(self)@.inner, final(self)@.inner),
    {
        let mut other = self.clone();
        std::mem::swap(self, &mut other);
        other
    }

    /// Decides on a request that arrives: whether it is left alone.
    pub fn arrive(&self, parts: &Parts) -> (arrival: Arrival)
        ensures
            arrives(self@.policy, *parts, arrival),
    {
        if self.guard.claims(parts) {
            Arrival::Forward
        } else {
            Arrival::Classify
        }
    }

    /// Decides on a request that was classified: whether it goes on.
    pub fn settle(&self, parts: &Parts, found: Result<Finding, String>) -> (verdict: Verdict)
        ensures
            settles(self@.policy, *parts, found, verdict),
    {
        match found {
            Err(reason) => Verdict::Respond(fault(reason)),
            Ok(found) => if found.blocked {
                Verdict::Respond(self.guard.answer(parts, &found))
            } else {
                Verdict::Forward(found)
            },
        }
    }
}

impl<S: Clone> Clone for VPNDetectionService<S> {
    fn clone(&self) -> (copy: Self)
        ensures
            copy@.policy == self@.policy,
            cloned(self@.inner, copy@.inner),
    {
        VPNDetectionService { inner: self.inner.clone(), guard: self.guard.clone() }
    }
}

} // verus!
