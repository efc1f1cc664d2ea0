//! The middleware itself: what it is built from, and the policy it carries.

use crate::finding::Finding;
use crate::handler::{Blocked, OnArrival, OnBlocked, Refuse, Skip};
use crate::message::is_refusal;
use crate::service::{Layered, VPNDetectionService};
use axum::response::Response;
use http::request::Parts;
use std::sync::Arc;
use vpndetection::middleware::{Core, Options};
use vstd::prelude::*;

verus! {

/// `vpndetection::middleware::Options`, how lookups are made. It is only
/// carried.
#[verifier::external_type_specification]
#[verifier::external_body]
pub struct ExOptions(vpndetection::middleware::Options);

/// `vpndetection::middleware::Core`, which classifies a request. It is only
/// carried: a classification awaits the network.
#[verifier::external_type_specification]
#[verifier::external_body]
pub struct ExCore(vpndetection::middleware::Core);

/// The block conditions that options hold, each by how many constraints it
/// carries. A member set to `false` or null carries none, and neither does a
/// bound without limits.
pub uninterp spec fn constraints_in(options: Options) -> Seq<nat>;

/// Whether one among these conditions constrains nothing. It would match every
/// answer.
pub open spec fn blocks_everybody(constraints: Seq<nat>) -> bool {
    exists|i: int| 0 <= i < constraints.len() && #[trigger] constraints[i] == 0
}

/// Whether options bring a client of their own.
pub uninterp spec fn brings_client(options: Options) -> bool;

/// How long options let a lookup hold the request, in nanoseconds.
pub uninterp spec fn timeout_in(options: Options) -> nat;

/// The base URL that options set.
pub uninterp spec fn base_url_in(options: Options) -> Option<Seq<char>>;

/// The API key that options set.
pub uninterp spec fn api_key_in(options: Options) -> Option<Seq<char>>;

/// Whether a text reads as a URL that has a host, to `Url::parse` and
/// `Url::has_host`.
pub uninterp spec fn names_a_host(url: Seq<char>) -> bool;

/// Whether an error is `vpndetection::Error::Config`: something was asked for
/// that cannot be done.
pub uninterp spec fn is_config_error(error: vpndetection::Error) -> bool;

/// Whether a character has Unicode's property of being white space.
pub open spec fn is_white_space(c: char) -> bool {
    ||| '\u{9}' <= c <= '\u{d}'
    ||| c == ' '
    ||| c == '\u{85}'
    ||| c == '\u{a0}'
    ||| c == '\u{1680}'
    ||| '\u{2000}' <= c <= '\u{200a}'
    ||| c == '\u{2028}'
    ||| c == '\u{2029}'
    ||| c == '\u{202f}'
    ||| c == '\u{205f}'
    ||| c == '\u{3000}'
}

/// Whether a character is one of Unicode's control characters.
pub open spec fn is_control(c: char) -> bool {
    c <= '\u{1f}' || '\u{7f}' <= c <= '\u{9f}'
}

/// Whether an API key holds a control character once the white space around it
/// is trimmed off.
pub open spec fn holds_control(key: Seq<char>) -> bool {
    exists|first: int, i: int, last: int|
        0 <= first <= i <= last < key.len() && !is_white_space(#[trigger] key[first]) && is_control(
            #[trigger] key[i],
        ) && !is_white_space(#[trigger] key[last])
}

/// Whether no client can be built from these settings, whatever the machine:
/// there is no time for a lookup, the base URL names no host, or the key cannot
/// be sent.
pub open spec fn unusable(timeout: nat, host_named: bool, api_key: Option<Seq<char>>) -> bool {
    ||| timeout == 0
    ||| !host_named
    ||| api_key is Some && holds_control(api_key->0)
}

/// Whether options are refused for what they hold. The settings of a client
/// count only where no client is brought.
pub open spec fn refused(options: Options) -> bool {
    ||| blocks_everybody(constraints_in(options))
    ||| !brings_client(options) && unusable(
        timeout_in(options),
        base_url_in(options) is Some ==> names_a_host(base_url_in(options)->0),
        api_key_in(options),
    )
}

/// `Core::new` refuses a condition that constrains nothing. It then takes the
/// client that the options bring, which cannot fail, or builds one where they
/// bring none: a zero timeout, a base URL without a host and a key with a
/// control character are refused. A refusal is a configuration error, and no
/// other failure is one. Left unsaid is whether the last step of building a
/// client, that of its transport, succeeds: it rests on the machine.
pub assume_specification[ Core::new ](options: Options) -> (built: Result<
    Core,
    vpndetection::Error,
>)
    ensures
        (built is Err && is_config_error(built->Err_0)) == (blocks_everybody(
            constraints_in(options),
        ) || !brings_client(options) && unusable(
            timeout_in(options),
            base_url_in(options) is Some ==> names_a_host(base_url_in(options)->0),
            api_key_in(options),
        )),
        brings_client(options) && !blocks_everybody(constraints_in(options)) ==> built is Ok,
;

/// `Core` derives its `Clone` over shared handles and plain data, so a clone is
/// the same classifier, with the same client, cache and warnings.
pub assume_specification[ <Core as Clone>::clone ](engine: &Core) -> (copy: Core)
    ensures
        copy == *engine,
;

/// What a guard does with requests.
#[verifier::ext_equal]
pub struct Policy {
    /// The classifier.
    pub engine: Core,
    /// Which responses a blocked request may be answered with.
    pub answers: spec_fn(Parts, Finding, Response) -> bool,
    /// What may be said of a request that arrives: whether it is left alone.
    pub says: spec_fn(Parts, bool) -> bool,
}

/// The policy of a guard nothing was set on: a blocked request is refused, and
/// no request is left alone.
pub open spec fn default_policy(engine: Core) -> Policy {
    Policy {
        engine,
        answers: |parts: Parts, found: Finding, response: Response| is_refusal(response),
        says: |parts: Parts, claimed: bool| !claimed,
    }
}

/// A policy with another answer to blocked requests.
pub open spec fn answering<F: Fn(&Parts, &Finding) -> Response>(
    policy: Policy,
    handler: F,
) -> Policy {
    Policy {
        answers: |parts: Parts, found: Finding, response: Response|
            call_ensures(handler, (&parts, &found), response),
        ..policy
    }
}

/// A policy that leaves other requests alone.
pub open spec fn skipping<F: Fn(&Parts) -> bool>(policy: Policy, handler: F) -> Policy {
    Policy {
        says: |parts: Parts, claimed: bool| call_ensures(handler, (&parts,), claimed),
        ..policy
    }
}

/// The middleware.
///
/// It classifies the visitor behind each request and puts the answer on the
/// request. Blocking is opt-in.
pub struct VPNDetection {
    engine: Core,
    on_blocked: Arc<Box<dyn Blocked>>,
    skip: Option<Arc<Box<dyn Skip>>>,
}

impl View for VPNDetection {
    type V = Policy;

    closed spec fn view(&self) -> Policy {
        Policy {
            engine: self.engine,
            answers: |parts: Parts, found: Finding, response: Response|
                self.on_blocked.answers(parts, found, response),
            says: |parts: Parts, claimed: bool|
                match self.skip {
                    Some(skip) => skip.says(parts, claimed),
                    None => !claimed,
                },
        }
    }
}

/// Whether a guard is what becomes of a build: around the classifier that was
/// built, with nothing set, or the reason the build failed for.
pub open spec fn assembles(
    built: Result<Core, vpndetection::Error>,
    guard: Result<VPNDetection, vpndetection::Error>,
) -> bool {
    match (built, guard) {
        (Ok(engine), Ok(guard)) => guard@ == default_policy(engine),
        (Err(reason), Err(error)) => error == reason,
        _ => false,
    }
}

impl VPNDetection {
    /// Builds the middleware, refusing a condition that constrains nothing and
    /// building a client when the options bring none.
    ///
    /// What is refused for what the options hold is a configuration error, and
    /// no other failure is one. Options that bring a client fail for nothing
    /// else.
    pub fn new(options: Options) -> (guard: Result<Self, vpndetection::Error>)
        ensures
            exists|built: Result<Core, vpndetection::Error>| #[trigger]
                call_ensures(Core::new, (options,), built) && assembles(built, guard),
            guard is Ok ==> guard->Ok_0@ == default_policy(guard->Ok_0@.engine),
            refused(options) <==> guard is Err && is_config_error(guard->Err_0),
            brings_client(options) ==> (guard is Err <==> blocks_everybody(constraints_in(options))),
    {
        // Called as a value: the contract speaks of this very call.
        let build = Core::new;
        let built = build(options);
        Self::from_built(built)
    }

    /// The middleware around a classifier, or the reason there is none.
    pub fn from_built(built: Result<Core, vpndetection::Error>) -> (guard: Result<
        Self,
        vpndetection::Error,
    >)
        ensures
            assembles(built, guard),
            guard is Ok <==> built is Ok,
            guard is Ok ==> guard->Ok_0@ == default_policy(built->Ok_0),
            guard is Err ==> guard->Err_0 == built->Err_0,
    {
        match built {
            Ok(engine) => {
                let handler: Box<dyn Blocked> = Box::new(Refuse);
                assert(forall|parts: Parts, found: Finding, response: Response|
                    handler.answers(parts, found, response) == is_refusal(response));
                let on_blocked = Arc::new(handler);
                let guard = VPNDetection { engine, on_blocked, skip: None };
                assert(*guard.on_blocked == handler);
                assert(guard@ =~= default_policy(engine));
                Ok(guard)
            },
            Err(reason) => Err(reason),
        }
    }

    /// Answers a request the condition matched, replacing the `403`. The handler
    /// of the route never runs either way.
    #[must_use]
    pub fn on_blocked<F>(self, respond: F) -> (guard: Self) where
        F: Fn(&Parts, &Finding) -> Response + Send + Sync + 'static,

        requires
            forall|parts: &Parts, found: &Finding| call_requires(respond, (parts, found)),
        ensures
            guard@ == answering(self@, respond),
    {
        let handler: Box<dyn Blocked> = Box::new(OnBlocked::new(respond));
        assert(forall|parts: Parts, found: Finding, response: Response|
            handler.answers(parts, found, response) == call_ensures(
                respond,
                (&parts, &found),
                response,
            ));
        let on_blocked = Arc::new(handler);
        let guard = VPNDetection { engine: self.engine, on_blocked, skip: self.skip };
        assert(*guard.on_blocked == handler);
        assert(guard@ =~= answering(self@, respond));
        guard
    }

    /// Skips classification for a request entirely: health checks, static
    /// assets, anything that a layer over the whole application would otherwise
    /// pay for.
    #[must_use]
    pub fn skip<F>(self, claim: F) -> (guard: Self) where
        F: Fn(&Parts) -> bool + Send + Sync + 'static,

        requires
            forall|parts: &Parts| call_requires(claim, (parts,)),
        ensures
            guard@ == skipping(self@, claim),
    {
        let handler: Box<dyn Skip> = Box::new(OnArrival::new(claim));
        assert(forall|parts: Parts, claimed: bool|
            handler.says(parts, claimed) == call_ensures(claim, (&parts,), claimed));
        let skip = Arc::new(handler);
        let guard = VPNDetection {
            engine: self.engine,
            on_blocked: self.on_blocked,
            skip: Some(skip),
        };
        assert(*guard.skip->0 == handler);
        assert(guard@ =~= skipping(self@, claim));
        guard
    }

    /// Wraps a service. The guard stays as it was and may wrap others.
    pub fn layer<S>(&self, inner: S) -> (service: VPNDetectionService<S>)
        ensures
            service@ == (Layered { inner, policy: self@ }),
    {
        VPNDetectionService::new(inner, self.clone())
    }

    /// The classifier, for the call that awaits the network.
    pub fn classifier(&self) -> (engine: &Core)
        ensures
            *engine == self@.engine,
    {
        &self.engine
    }

    /// Whether a request is left alone on arrival, before anything is looked up.
    pub(crate) fn claims(&self, parts: &Parts) -> (claimed: bool)
        ensures
            (self@.says)(*parts, claimed),
    {
        match &self.skip {
            Some(skip) => skip.claims(parts),
            None => false,
        }
    }

    /// The answer to a blocked request.
    pub(crate) fn answer(&self, parts: &Parts, found: &Finding) -> (response: Response)
        ensures
            (self@.answers)(*parts, *found, response),
    {
        self.on_blocked.answer(parts, found)
    }
}

impl Clone for VPNDetection {
    fn clone(&self) -> (copy: Self)
        ensures
            copy@ == self@,
    {
        let skip = match &self.skip {
            Some(skip) => Some(Arc::clone(skip)),
            None => None,
        };
        VPNDetection {
            engine: self.engine.clone(),
            on_blocked: Arc::clone(&self.on_blocked),
            skip,
        }
    }
}

} // verus!
