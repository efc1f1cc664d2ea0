# vpndetection-axum

A middleware for axum that classifies the visitor behind each request with the
VPNDetection API and puts the answer on the request. Blocking is opt-in: a
visitor whom a condition matches is answered with `403`, or as the application
says, before any handler runs. A lookup that fails lets the visitor through.

The decisions are written in Verus and proved against their contracts.

- `src/` is the verified library.
  - `guard.rs`: `VPNDetection`, its builders, and the `Policy` it stands for.
  - `handler.rs`: the handlers an application may supply, behind trait objects.
  - `service.rs`: `VPNDetectionService`, and what becomes of a request on arrival
    and once it was classified.
  - `finding.rs`: `Finding`, and its place in the extensions of a request, which
    carry it as the `Lookup` of `vpndetection::middleware`.
  - `extract.rs`: `Found` and `MaybeFound`.
  - `message.rs`: header fields of requests, and the responses made here.
  - `laws.rs`: what holds of all of these together.
- `app/` makes it a tower layer: it awaits the lookup, calls the service behind
  the middleware, and reads the peer of the connection.
- `tests/` runs the library with the real `http`, `axum` and `vpndetection`,
  against a stub of the API on a Unix socket.

What is taken on trust is what those crates do in the calls that `src/` makes:
each such item says in its doc comment which function it is about and what it
claims of it. The versions they were read in are those that `Cargo.toml` names.
