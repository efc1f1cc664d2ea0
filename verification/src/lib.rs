//! A middleware for `axum` that classifies the visitor behind each request -
//! VPN, residential proxy, Tor, hosting, CDN, relay - with the VPNDetection API,
//! and puts the answer on the request. Blocking is opt-in.
//!
//! By default nothing is blocked. Every request carries a
//! [`middleware::Lookup`], read as a [`Finding`], and the application's own
//! handlers decide what that means. A finding that blocks is answered before
//! any handler runs, with `403` unless
//! [`VPNDetection::on_blocked`] says otherwise. A lookup that fails lets the
//! visitor through.
//!
//! This crate holds the decisions, with their contracts. Awaiting the lookup and
//! calling the service behind the middleware is the business of whoever drives
//! it: [`VPNDetectionService::take_ready`] gives the service for one request,
//! [`VPNDetectionService::arrive`] decides on its arrival,
//! [`VPNDetectionService::settle`] on what was found, and [`attach`] puts a
//! finding on a request that goes on.

pub mod extract;
pub mod finding;
pub mod guard;
mod handler;
pub mod laws;
pub mod message;
pub mod service;

pub use extract::{Found, MaybeFound};
pub use finding::{attach, Finding};
pub use guard::VPNDetection;
pub use message::request_header;
pub use service::{Arrival, VPNDetectionService, Verdict};
pub use vpndetection::middleware;
