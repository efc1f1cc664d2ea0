//! What holds of the middleware as a whole.
//!
//! The first laws relate policies, verdicts and findings to each other. The
//! later ones speak of the functions themselves: their hypotheses are calls that
//! were made, and what they conclude is said of the bytes of a header, the
//! status, fields and body of a response, and the findings on a request, with no
//! other notion in between.

use crate::extract::{extracts, is_rejection, Found, MaybeFound};
use crate::finding::{attach, attaches, carried, findings_in, others_in, read, Finding};
use crate::guard::{
    answering, api_key_in, base_url_in, brings_client, constraints_in, default_policy,
    is_config_error, names_a_host, skipping, timeout_in, Policy, VPNDetection,
};
use crate::message::{
    fault, header_fields, header_text, is_plain_text, is_refusal, lower, lower_char, refusal,
    request_header, response_body, response_fields, response_status,
};
use crate::service::{arrives, settles, Arrival, VPNDetectionService, Verdict};
use axum::response::Response;
use http::header::{HeaderMap, HeaderValue};
use http::request::Parts;
use http::Extensions;
use vpndetection::middleware::{Core, Options};
use vstd::prelude::*;
use vstd::utf8::encode_utf8;

verus! {

/// A request is answered on the spot if the visitor is blocked or the
/// classifier is at fault, and goes on otherwise, whatever the policy.
pub proof fn law_answered_exactly_when_blocked_or_at_fault(
    policy: Policy,
    parts: Parts,
    found: Result<Finding, String>,
    verdict: Verdict,
)
    requires
        settles(policy, parts, found, verdict),
    ensures
        verdict is Respond <==> (found is Err || found->Ok_0.blocked),
        verdict is Forward <==> (found is Ok && !found->Ok_0.blocked),
{
}

/// A blocked visitor gets an answer of the guard's own handler, and a request
/// of theirs never goes on.
pub proof fn law_blocked_is_answered_by_the_handler<F: Fn(&Parts, &Finding) -> Response>(
    policy: Policy,
    respond: F,
    parts: Parts,
    found: Finding,
    verdict: Verdict,
)
    requires
        found.blocked,
        settles(answering(policy, respond), parts, Ok(found), verdict),
    ensures
        verdict is Respond,
        call_ensures(respond, (&parts, &found), verdict->Respond_0),
{
}

/// Without a handler of the application a blocked visitor is refused.
pub proof fn law_blocked_is_refused_by_default(
    engine: Core,
    parts: Parts,
    found: Finding,
    verdict: Verdict,
)
    requires
        found.blocked,
        settles(default_policy(engine), parts, Ok(found), verdict),
    ensures
        verdict is Respond,
        is_refusal(verdict->Respond_0),
{
}

/// A lookup that failed lets the visitor through, with the reason on the
/// finding, as long as the finding does not block.
pub proof fn law_failed_lookup_lets_the_visitor_through(
    policy: Policy,
    parts: Parts,
    found: Finding,
    verdict: Verdict,
)
    requires
        found.error is Some,
        !found.blocked,
        settles(policy, parts, Ok(found), verdict),
    ensures
        verdict is Forward,
        verdict->Forward_0.error == found.error,
        verdict->Forward_0 == found,
{
}

/// Whether a request goes on hangs on `blocked` alone, not on the address, the
/// answer or the failure.
pub proof fn law_only_blocked_decides(
    policy: Policy,
    parts: Parts,
    found: Finding,
    other: Finding,
    verdict: Verdict,
    other_verdict: Verdict,
)
    requires
        found.blocked == other.blocked,
        settles(policy, parts, Ok(found), verdict),
        settles(policy, parts, Ok(other), other_verdict),
    ensures
        verdict is Forward <==> other_verdict is Forward,
{
}

/// A fault of the classifier is answered with `500` and its reason, whatever
/// the application does with blocked requests.
pub proof fn law_fault_is_answered_with_its_reason(
    policy: Policy,
    parts: Parts,
    reason: String,
    verdict: Verdict,
)
    requires
        settles(policy, parts, Err(reason), verdict),
    ensures
        verdict is Respond,
        is_plain_text(verdict->Respond_0, 500, reason@),
{
}

/// Where nothing is skipped, every request is classified.
pub proof fn law_default_classifies_every_request(engine: Core, parts: Parts, arrival: Arrival)
    ensures
        arrives(default_policy(engine), parts, arrival) <==> arrival is Classify,
{
}

/// A request is left alone exactly when the application claims it.
pub proof fn law_skip_decides_arrivals<F: Fn(&Parts) -> bool>(
    policy: Policy,
    claim: F,
    parts: Parts,
    arrival: Arrival,
)
    ensures
        arrives(skipping(policy, claim), parts, arrival) <==> call_ensures(
            claim,
            (&parts,),
            arrival is Forward,
        ),
{
}

/// The two handlers do not meddle: the one for blocked requests changes no
/// arrival, and the one for arrivals settles nothing. Both keep the classifier.
pub proof fn law_handlers_are_independent<
    F: Fn(&Parts, &Finding) -> Response,
    G: Fn(&Parts) -> bool,
>(
    policy: Policy,
    respond: F,
    claim: G,
    parts: Parts,
    arrival: Arrival,
    found: Result<Finding, String>,
    verdict: Verdict,
)
    ensures
        arrives(answering(policy, respond), parts, arrival) == arrives(policy, parts, arrival),
        settles(skipping(policy, claim), parts, found, verdict) == settles(
            policy,
            parts,
            found,
            verdict,
        ),
        answering(policy, respond).engine == policy.engine,
        skipping(policy, claim).engine == policy.engine,
{
}

/// The order in which the two handlers are set makes no difference.
pub proof fn law_builders_commute<F: Fn(&Parts, &Finding) -> Response, G: Fn(&Parts) -> bool>(
    policy: Policy,
    respond: F,
    claim: G,
)
    ensures
        skipping(answering(policy, respond), claim) == answering(skipping(policy, claim), respond),
{
}

/// Of two handlers for blocked requests the later one counts.
pub proof fn law_later_answer_counts<
    F: Fn(&Parts, &Finding) -> Response,
    G: Fn(&Parts, &Finding) -> Response,
>(policy: Policy, first: F, second: G)
    ensures
        answering(answering(policy, first), second) == answering(policy, second),
{
}

/// Of two handlers for arrivals the later one counts.
pub proof fn law_later_skip_counts<F: Fn(&Parts) -> bool, G: Fn(&Parts) -> bool>(
    policy: Policy,
    first: F,
    second: G,
)
    ensures
        skipping(skipping(policy, first), second) == skipping(policy, second),
{
}

/// The handler of a request that goes on reads back the finding that the
/// classifier gave, through either extractor, and the request holds besides
/// what it held on arrival.
pub proof fn law_finding_reaches_the_handler(
    policy: Policy,
    parts: Parts,
    found: Finding,
    verdict: Verdict,
    before: Extensions,
    after: Extensions,
    read: Result<Found, Response>,
    maybe: MaybeFound,
)
    requires
        !found.blocked,
        settles(policy, parts, Ok(found), verdict),
        attaches(before, verdict->Forward_0, after),
        extracts(after, read),
        maybe.0 == carried(after),
    ensures
        read == Ok::<Found, Response>(Found(found)),
        maybe == MaybeFound(Some(found)),
        others_in(after) == others_in(before),
{
}

/// A request that carries no finding, as one that was left alone or came by an
/// unguarded route, has [`Found`] reject with `500` and [`MaybeFound`] be empty.
pub proof fn law_unclassified_request_is_rejected(
    extensions: Extensions,
    read: Result<Found, Response>,
    maybe: MaybeFound,
)
    requires
        carried(extensions) is None,
        extracts(extensions, read),
        maybe.0 == carried(extensions),
    ensures
        read is Err,
        is_rejection(read->Err_0),
        maybe == MaybeFound(None),
{
}

/// The two extractors agree: one rejects where the other is empty, and where
/// there is a finding it is the same.
pub proof fn law_extractors_agree(
    extensions: Extensions,
    read: Result<Found, Response>,
    maybe: MaybeFound,
)
    requires
        extracts(extensions, read),
        maybe.0 == carried(extensions),
    ensures
        read is Ok <==> maybe.0 is Some,
        read is Ok ==> maybe.0 == Some(read->Ok_0.0),
{
}

/// A finding attached later takes the place of an earlier one.
pub proof fn law_later_finding_counts(
    first: Finding,
    second: Finding,
    start: Extensions,
    between: Extensions,
    end: Extensions,
)
    requires
        attaches(start, first, between),
        attaches(between, second, end),
    ensures
        attaches(start, second, end),
{
}

/// Two spellings of a header name that differ in ASCII case name one header.
pub proof fn law_header_names_ignore_case(
    fields: Map<Seq<char>, Seq<Seq<u8>>>,
    name: Seq<char>,
    other: Seq<char>,
)
    requires
        lower(name) == lower(other),
    ensures
        header_text(fields, name) == header_text(fields, other),
{
}

/// A header may be asked for by its name in lower case.
pub proof fn law_header_names_may_be_lower_case(
    fields: Map<Seq<char>, Seq<Seq<u8>>>,
    name: Seq<char>,
)
    ensures
        lower(lower(name)) == lower(name),
        header_text(fields, lower(name)) == header_text(fields, name),
{
    assert forall|i: int| 0 <= i < name.len() implies lower_char(lower_char(#[trigger] name[i]))
        == lower_char(name[i]) by {}
    assert(lower(lower(name)) =~= lower(name));
}

/// A header is read byte by byte. There is a text exactly where the first value
/// under the name in lower case is all visible ASCII, spaces and tabs, of
/// whatever length, and it has the characters of those bytes in their order.
pub proof fn law_header_is_read_byte_by_byte(
    headers: HeaderMap<HeaderValue>,
    name: &str,
    key: Seq<char>,
    text: Option<String>,
)
    requires
        call_ensures(request_header, (&headers, name), text),
        key.len() == name@.len(),
        forall|i: int|
            0 <= i < name@.len() ==> #[trigger] key[i] == if 'A' <= name@[i] <= 'Z' {
                (name@[i] as u32 + 32) as char
            } else {
                name@[i]
            },
    ensures
        text is Some <==> header_fields(headers).contains_key(key) && forall|i: int|
            0 <= i < header_fields(headers)[key][0].len() ==> {
                let byte = #[trigger] header_fields(headers)[key][0][i];
                32 <= byte <= 126 || byte == 9
            },
        text is Some ==> text->0@.len() == header_fields(headers)[key][0].len(),
        text is Some ==> forall|i: int|
            0 <= i < text->0@.len() ==> #[trigger] text->0@[i] == header_fields(
                headers,
            )[key][0][i] as char,
{
    assert(key =~= lower(name@));
}

/// Two requests whose first values under a name are the same, or absent alike,
/// give the same text, whatever else they hold.
pub proof fn law_header_hangs_on_its_first_value(
    headers: HeaderMap<HeaderValue>,
    other: HeaderMap<HeaderValue>,
    name: &str,
    text: Option<String>,
    other_text: Option<String>,
)
    requires
        call_ensures(request_header, (&headers, name), text),
        call_ensures(request_header, (&other, name), other_text),
        forall|key: Seq<char>|
            header_fields(headers).contains_key(key) == header_fields(other).contains_key(key),
        forall|key: Seq<char>| #[trigger]
            header_fields(headers)[key][0] == header_fields(other)[key][0],
    ensures
        text is Some <==> other_text is Some,
        text is Some ==> text->0@ == other_text->0@,
{
    assert(header_fields(headers)[lower(name@)][0] == header_fields(other)[lower(name@)][0]);
}

/// The refusal is `403` with one fixed JSON object, and says so.
pub proof fn law_refusal_in_full(response: Response)
    requires
        call_ensures(refusal, (), response),
    ensures
        response_status(response) == 403,
        response_fields(response) == map![
            "content-type"@ => seq![encode_utf8("application/json"@)],
        ],
        response_body(response) == encode_utf8("{\"error\":\"access denied\"}"@),
{
}

/// A fault is `500` with its reason in plain text, whatever the reason.
pub proof fn law_fault_in_full(reason: String, response: Response)
    requires
        call_ensures(fault, (reason,), response),
    ensures
        response_status(response) == 500,
        response_fields(response) == map![
            "content-type"@ => seq![encode_utf8("text/plain; charset=utf-8"@)],
        ],
        response_body(response) == encode_utf8(reason@),
{
}

/// What a service does with a request that was classified: a fault of the
/// classifier is answered with `500` and its reason, a visitor who is blocked
/// with what the policy answers them, and any other request goes on with the
/// finding as it was found.
pub proof fn law_settle_in_full<S>(
    service: VPNDetectionService<S>,
    parts: Parts,
    found: Result<Finding, String>,
    verdict: Verdict,
)
    requires
        call_ensures(VPNDetectionService::<S>::settle, (&service, &parts, found), verdict),
    ensures
        found is Err ==> {
            &&& verdict is Respond
            &&& response_status(verdict->Respond_0) == 500
            &&& response_fields(verdict->Respond_0) == map![
                "content-type"@ => seq![encode_utf8("text/plain; charset=utf-8"@)],
            ]
            &&& response_body(verdict->Respond_0) == encode_utf8(found->Err_0@)
        },
        found is Ok && found->Ok_0.blocked ==> {
            &&& verdict is Respond
            &&& (service@.policy.answers)(parts, found->Ok_0, verdict->Respond_0)
        },
        found is Ok && !found->Ok_0.blocked ==> verdict == Verdict::Forward(found->Ok_0),
{
}

/// A specified verdict on a fault has that status and that body, whatever the
/// policy and the reason.
pub proof fn law_fault_is_a_server_error(
    policy: Policy,
    parts: Parts,
    reason: String,
    verdict: Verdict,
)
    requires
        settles(policy, parts, Err(reason), verdict),
    ensures
        verdict is Respond,
        response_status(verdict->Respond_0) == 500,
        response_fields(verdict->Respond_0) == map![
            "content-type"@ => seq![encode_utf8("text/plain; charset=utf-8"@)],
        ],
        response_body(verdict->Respond_0) == encode_utf8(reason@),
{
}

/// A guard is built around the classifier that was built, and fails for the
/// reason that the classifier failed for.
pub proof fn law_guard_follows_its_classifier(
    built: Result<Core, vpndetection::Error>,
    guard: Result<VPNDetection, vpndetection::Error>,
)
    requires
        call_ensures(VPNDetection::from_built, (built,), guard),
    ensures
        guard is Ok <==> built is Ok,
        guard is Ok ==> guard->Ok_0@.engine == built->Ok_0,
        guard is Err ==> guard->Err_0 == built->Err_0,
{
}

/// A guard that nothing was set on answers a blocked visitor with the `403`
/// object, whoever they are and whatever was found, with that alone, and leaves
/// no request alone.
pub proof fn law_guard_as_built(
    built: Result<Core, vpndetection::Error>,
    guard: VPNDetection,
    parts: Parts,
    found: Finding,
    response: Response,
    claimed: bool,
)
    requires
        call_ensures(VPNDetection::from_built, (built,), Ok(guard)),
    ensures
        (guard@.answers)(parts, found, response) <==> {
            &&& response_status(response) == 403
            &&& response_fields(response) == map![
                "content-type"@ => seq![encode_utf8("application/json"@)],
            ]
            &&& response_body(response) == encode_utf8("{\"error\":\"access denied\"}"@)
        },
        (guard@.says)(parts, claimed) <==> !claimed,
{
}

/// Options are handed to the classifier, and the guard is built around what
/// comes of it or fails for the same reason.
pub proof fn law_new_hands_the_options_on(
    options: Options,
    guard: Result<VPNDetection, vpndetection::Error>,
)
    requires
        call_ensures(VPNDetection::new, (options,), guard),
    ensures
        exists|built: Result<Core, vpndetection::Error>| #[trigger]
            call_ensures(Core::new, (options,), built) && match (built, guard) {
                (Ok(engine), Ok(guard)) => guard@.engine == engine,
                (Err(reason), Err(error)) => error == reason,
                _ => false,
            },
{
}

/// The characters of white space.
pub open spec fn white_spaces() -> Set<char> {
    set![
        '\u{9}', '\u{a}', '\u{b}', '\u{c}', '\u{d}', ' ', '\u{85}', '\u{a0}', '\u{1680}',
        '\u{2000}', '\u{2001}', '\u{2002}', '\u{2003}', '\u{2004}', '\u{2005}', '\u{2006}',
        '\u{2007}', '\u{2008}', '\u{2009}', '\u{200a}', '\u{2028}', '\u{2029}', '\u{202f}',
        '\u{205f}', '\u{3000}',
    ]
}

/// A new guard fails with a configuration error exactly where a condition
/// constrains nothing or, where no client is brought, no client could be built:
/// for want of time, of a host in the base URL, or of a key that can be sent.
/// With a client brought, it fails for nothing but the condition.
pub proof fn law_new_refuses_what_cannot_work(
    options: Options,
    guard: Result<VPNDetection, vpndetection::Error>,
)
    requires
        call_ensures(VPNDetection::new, (options,), guard),
    ensures
        (guard is Err && is_config_error(guard->Err_0)) <==> {
            ||| exists|i: int|
                0 <= i < constraints_in(options).len() && #[trigger] constraints_in(options)[i] == 0
            ||| !brings_client(options) && timeout_in(options) == 0
            ||| !brings_client(options) && base_url_in(options) is Some && !names_a_host(
                base_url_in(options)->0,
            )
            ||| !brings_client(options) && api_key_in(options) is Some && {
                let key = api_key_in(options)->0;
                exists|first: int, i: int, last: int|
                    {
                        &&& 0 <= first <= i <= last < key.len()
                        &&& !white_spaces().contains(#[trigger] key[first])
                        &&& (#[trigger] key[i] <= '\u{1f}' || '\u{7f}' <= key[i] <= '\u{9f}')
                        &&& !white_spaces().contains(#[trigger] key[last])
                    }
            }
        },
        brings_client(options) ==> (guard is Err <==> exists|i: int|
            0 <= i < constraints_in(options).len() && #[trigger] constraints_in(options)[i] == 0),
{
}

/// A blocked visitor of a new guard is answered `403` with the JSON object,
/// whatever the service behind it, and every request of theirs is classified.
pub proof fn law_new_guard_in_full<S>(
    options: Options,
    guard: VPNDetection,
    inner: S,
    service: VPNDetectionService<S>,
    parts: Parts,
    arrival: Arrival,
    found: Finding,
    verdict: Verdict,
)
    requires
        call_ensures(VPNDetection::new, (options,), Ok(guard)),
        call_ensures(VPNDetection::layer::<S>, (&guard, inner), service),
        call_ensures(VPNDetectionService::<S>::arrive, (&service, &parts), arrival),
        call_ensures(VPNDetectionService::<S>::settle, (&service, &parts, Ok(found)), verdict),
    ensures
        arrival == Arrival::Classify,
        found.blocked ==> {
            &&& verdict is Respond
            &&& response_status(verdict->Respond_0) == 403
            &&& response_fields(verdict->Respond_0) == map![
                "content-type"@ => seq![encode_utf8("application/json"@)],
            ]
            &&& response_body(verdict->Respond_0) == encode_utf8("{\"error\":\"access denied\"}"@)
        },
        !found.blocked ==> verdict == Verdict::Forward(found),
{
}

/// A handler for blocked requests answers each of them, on the very request and
/// finding, and nothing else changes: requests arrive as they did, and the
/// classifier stays.
pub proof fn law_on_blocked_in_full<S, F>(
    guard: VPNDetection,
    respond: F,
    answering_guard: VPNDetection,
    inner: S,
    service: VPNDetectionService<S>,
    parts: Parts,
    arrival: Arrival,
    found: Finding,
    verdict: Verdict,
    response: Response,
) where F: Fn(&Parts, &Finding) -> Response + Send + Sync + 'static
    requires
        call_ensures(VPNDetection::on_blocked::<F>, (guard, respond), answering_guard),
        call_ensures(VPNDetection::layer::<S>, (&answering_guard, inner), service),
        call_ensures(VPNDetectionService::<S>::arrive, (&service, &parts), arrival),
        call_ensures(VPNDetectionService::<S>::settle, (&service, &parts, Ok(found)), verdict),
    ensures
        found.blocked ==> verdict is Respond && call_ensures(
            respond,
            (&parts, &found),
            verdict->Respond_0,
        ),
        !found.blocked ==> verdict == Verdict::Forward(found),
        (guard@.says)(parts, arrival == Arrival::Forward),
        (answering_guard@.answers)(parts, found, response) <==> call_ensures(
            respond,
            (&parts, &found),
            response,
        ),
        answering_guard@.engine == guard@.engine,
        answering_guard@.says == guard@.says,
{
}

/// A handler for arrivals decides which requests are left alone, and nothing
/// else changes: a blocked visitor is answered as before, and the classifier
/// stays.
pub proof fn law_skip_in_full<S, F>(
    guard: VPNDetection,
    claim: F,
    skipping_guard: VPNDetection,
    inner: S,
    service: VPNDetectionService<S>,
    parts: Parts,
    arrival: Arrival,
    found: Finding,
    verdict: Verdict,
    claimed: bool,
) where F: Fn(&Parts) -> bool + Send + Sync + 'static
    requires
        call_ensures(VPNDetection::skip::<F>, (guard, claim), skipping_guard),
        call_ensures(VPNDetection::layer::<S>, (&skipping_guard, inner), service),
        call_ensures(VPNDetectionService::<S>::arrive, (&service, &parts), arrival),
        call_ensures(VPNDetectionService::<S>::settle, (&service, &parts, Ok(found)), verdict),
    ensures
        call_ensures(claim, (&parts,), arrival == Arrival::Forward),
        found.blocked ==> verdict is Respond && (guard@.answers)(
            parts,
            found,
            verdict->Respond_0,
        ),
        !found.blocked ==> verdict == Verdict::Forward(found),
        (skipping_guard@.says)(parts, claimed) <==> call_ensures(claim, (&parts,), claimed),
        skipping_guard@.engine == guard@.engine,
        skipping_guard@.answers == guard@.answers,
{
}

/// A service wraps what it was given under the guard's own policy, and the one
/// taken for a request is that very service, with a clone left behind.
pub proof fn law_the_service_polled_is_taken<S: Clone>(
    guard: VPNDetection,
    inner: S,
    service: &mut VPNDetectionService<S>,
    ready: VPNDetectionService<S>,
)
    requires
        call_ensures(VPNDetection::layer::<S>, (&guard, inner), *service),
        call_ensures(VPNDetectionService::<S>::take_ready, (service,), ready),
    ensures
        ready@.inner == inner,
        ready@.policy == guard@,
        cloned(inner, final(service)@.inner),
        final(service)@.policy == guard@,
{
}

/// A clone of a service is under the same policy, in front of a clone of what is
/// behind it.
pub proof fn law_cloned_service_is_under_the_same_policy<S: Clone>(
    service: VPNDetectionService<S>,
    copy: VPNDetectionService<S>,
)
    requires
        cloned(service, copy),
    ensures
        copy@.policy == service@.policy,
        cloned(service@.inner, copy@.inner),
{
}

/// The inner service is handed out as it is, and what becomes of it is all that
/// changes.
pub proof fn law_inner_service_is_handed_out<S>(
    service: &mut VPNDetectionService<S>,
    inner: &mut S,
)
    requires
        call_ensures(VPNDetectionService::<S>::inner_mut, (service,), inner),
    ensures
        *old(inner) == old(service)@.inner,
        final(service)@.inner == *final(inner),
        final(service)@.policy == old(service)@.policy,
{
}

/// The classifier of a guard and of a service behind it is the one that was
/// built.
pub proof fn law_one_classifier_throughout<S>(
    engine: Core,
    guard: VPNDetection,
    inner: S,
    service: VPNDetectionService<S>,
    of_guard: &Core,
    of_service: &Core,
)
    requires
        call_ensures(VPNDetection::from_built, (Ok(engine),), Ok(guard)),
        call_ensures(VPNDetection::layer::<S>, (&guard, inner), service),
        call_ensures(VPNDetection::classifier, (&guard,), of_guard),
        call_ensures(VPNDetectionService::<S>::classifier, (&service,), of_service),
    ensures
        *of_guard == engine,
        *of_service == engine,
{
}

/// A clone is the same: a guard under the same policy, a finding and what holds
/// one field by field.
pub proof fn law_clones_are_the_same(
    guard: VPNDetection,
    guard_copy: VPNDetection,
    finding: Finding,
    finding_copy: Finding,
    found: Found,
    found_copy: Found,
    maybe: MaybeFound,
    maybe_copy: MaybeFound,
)
    requires
        cloned(guard, guard_copy),
        cloned(finding, finding_copy),
        cloned(found, found_copy),
        cloned(maybe, maybe_copy),
    ensures
        guard_copy@ == guard@,
        finding_copy == finding,
        found_copy.0 == found.0,
        maybe_copy.0 == maybe.0,
{
}

/// After a finding was attached, it is the one finding on the request, with
/// every field as it was, and what else the request holds has not changed.
pub proof fn law_attached_is_what_the_request_carries(extensions: &mut Extensions, found: Finding)
    requires
        call_ensures(attach, (extensions, found), ()),
    ensures
        findings_in(*final(extensions)).len() == 1,
        findings_in(*final(extensions))[0].blocked == found.blocked,
        findings_in(*final(extensions))[0].ip == found.ip,
        findings_in(*final(extensions))[0].result == found.result,
        findings_in(*final(extensions))[0].error == found.error,
        others_in(*final(extensions)) == others_in(*old(extensions)),
{
}

/// What is read off a request is the finding it carries, with every field as it
/// is there, whoever put it there, by each of the three ways to read it. Where
/// there is none, `Found` is answered with `500` and says what to do.
pub proof fn law_what_is_read_is_what_the_request_carries(
    extensions: Extensions,
    finding: Option<Finding>,
    found: Result<Found, Response>,
    maybe: MaybeFound,
)
    requires
        call_ensures(read, (&extensions,), finding),
        call_ensures(Found::from_extensions, (&extensions,), found),
        call_ensures(MaybeFound::from_extensions, (&extensions,), maybe),
    ensures
        findings_in(extensions).len() > 0 ==> {
            &&& finding == Some(findings_in(extensions)[0])
            &&& found is Ok && found->Ok_0.0 == findings_in(extensions)[0]
            &&& maybe.0 == Some(findings_in(extensions)[0])
        },
        findings_in(extensions).len() == 0 ==> {
            &&& finding is None
            &&& maybe.0 is None
            &&& found is Err
            &&& response_status(found->Err_0) == 500
            &&& response_fields(found->Err_0) == map![
                "content-type"@ => seq![encode_utf8("text/plain; charset=utf-8"@)],
            ]
            &&& response_body(found->Err_0) == encode_utf8(
                "vpndetection: this route is not behind the VPNDetection layer, or `skip` claimed the request; extract MaybeFound instead"@,
            )
        },
{
}

/// A request that goes on carries the finding of the classifier to its handler
/// unchanged: settled, attached and read, it is still the same.
pub proof fn law_finding_travels_unchanged<S>(
    service: VPNDetectionService<S>,
    parts: Parts,
    found: Finding,
    verdict: Verdict,
    extensions: &mut Extensions,
    extracted: Result<Found, Response>,
    maybe: MaybeFound,
)
    requires
        !found.blocked,
        call_ensures(VPNDetectionService::<S>::settle, (&service, &parts, Ok(found)), verdict),
        call_ensures(attach, (extensions, verdict->Forward_0), ()),
        call_ensures(Found::from_extensions, (&*final(extensions),), extracted),
        call_ensures(MaybeFound::from_extensions, (&*final(extensions),), maybe),
    ensures
        verdict is Forward,
        findings_in(*final(extensions)) == seq![found],
        extracted is Ok && extracted->Ok_0.0 == found,
        maybe.0 == Some(found),
{
}

} // verus!
