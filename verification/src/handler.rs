//! The two decisions an application may take over: how a blocked request is
//! answered, and which requests are left alone.
//!
//! A handler is held as a trait object, so a guard is one type whatever closure
//! it was given. What a handler may answer is a relation, since an application's
//! closure need not answer the same twice.

use crate::finding::Finding;
use crate::message::{refusal, is_refusal};
use axum::response::Response;
use http::request::Parts;
use vstd::prelude::*;

verus! {

/// Answers a request that is blocked.
pub(crate) trait Blocked: Send + Sync {
    /// Whether this response is one that the handler may give.
    spec fn answers(&self, parts: Parts, found: Finding, response: Response) -> bool;

    fn answer(&self, parts: &Parts, found: &Finding) -> (response: Response)
        ensures
            self.answers(*parts, *found, response),
    ;
}

/// Claims the requests that are left alone.
pub(crate) trait Skip: Send + Sync {
    /// Whether the handler may say this of the request.
    spec fn says(&self, parts: Parts, claimed: bool) -> bool;

    fn claims(&self, parts: &Parts) -> (claimed: bool)
        ensures
            self.says(*parts, claimed),
    ;
}

/// The refusal that answers when the application does not.
pub(crate) struct Refuse;

impl Blocked for Refuse {
    open(crate) spec fn answers(&self, parts: Parts, found: Finding, response: Response) -> bool {
        is_refusal(response)
    }

    fn answer(&self, parts: &Parts, found: &Finding) -> (response: Response) {
        refusal()
    }
}

/// A closure of the application that answers blocked requests.
pub(crate) struct OnBlocked<F: Fn(&Parts, &Finding) -> Response> {
    handler: F,
}

impl<F: Fn(&Parts, &Finding) -> Response> OnBlocked<F> {
    /// The closure takes every request.
    #[verifier::type_invariant]
    spec fn total(self) -> bool {
        forall|parts: &Parts, found: &Finding| call_requires(self.handler, (parts, found))
    }

    pub(crate) closed spec fn of(self) -> F {
        self.handler
    }

    pub(crate) fn new(handler: F) -> (wrapped: Self)
        requires
            forall|parts: &Parts, found: &Finding| call_requires(handler, (parts, found)),
        ensures
            wrapped.of() == handler,
    {
        OnBlocked { handler }
    }
}

impl<F: Fn(&Parts, &Finding) -> Response + Send + Sync> Blocked for OnBlocked<F> {
    open(crate) spec fn answers(&self, parts: Parts, found: Finding, response: Response) -> bool {
        call_ensures(self.of(), (&parts, &found), response)
    }

    fn answer(&self, parts: &Parts, found: &Finding) -> (response: Response) {
        proof {
            use_type_invariant(self);
        }
        let handler = &self.handler;
        handler(parts, found)
    }
}

/// A closure of the application that claims requests.
pub(crate) struct OnArrival<F: Fn(&Parts) -> bool> {
    handler: F,
}

impl<F: Fn(&Parts) -> bool> OnArrival<F> {
    /// The closure takes every request.
    #[verifier::type_invariant]
    spec fn total(self) -> bool {
        forall|parts: &Parts| call_requires(self.handler, (parts,))
    }

    pub(crate) closed spec fn of(self) -> F {
        self.handler
    }

    pub(crate) fn new(handler: F) -> (wrapped: Self)
        requires
            forall|parts: &Parts| call_requires(handler, (parts,)),
        ensures
            wrapped.of() == handler,
    {
        OnArrival { handler }
    }
}

impl<F: Fn(&Parts) -> bool + Send + Sync> Skip for OnArrival<F> {
    open(crate) spec fn says(&self, parts: Parts, claimed: bool) -> bool {
        call_ensures(self.of(), (&parts,), claimed)
    }

    fn claims(&self, parts: &Parts) -> (claimed: bool) {
        proof {
            use_type_invariant(self);
        }
        let handler = &self.handler;
        handler(parts)
    }
}

} // verus!
