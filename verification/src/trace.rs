//! Tracing middleware: the declaration that wraps an endpoint with a
//! tracer, and the pure decisions of its request hook — the span name,
//! the attributes recorded at the start of a request, and those recorded
//! from the response. Starting spans and awaiting the inner endpoint is
//! transport work and stays with the transport adapter.

use vstd::prelude::*;

use std::sync::Arc;

use crate::textnum::push_char;

verus! {

/// Share a reference-counted value.
///
/// Relies on `Arc::clone` (std): the clone shares the same value.
#[verifier::external_body]
fn arc_clone<T>(a: &Arc<T>) -> (r: Arc<T>)
    ensures
        r == *a,
{
    a.clone()
}

/// Middleware that wraps every endpoint call in a tracing span.
pub struct OpenTelemetryTracing<T> {
    pub tracer: Arc<T>,
}

impl<T> OpenTelemetryTracing<T> {
    /// Create the middleware around a tracer.
    pub fn new(tracer: T) -> (r: Self)
        ensures
            *r.tracer == tracer,
    {
        OpenTelemetryTracing { tracer: Arc::new(tracer) }
    }

    /// Wrap one endpoint: the resulting endpoint shares this middleware's
    /// tracer and owns the inner endpoint.
    pub fn transform<E>(&self, ep: E) -> (r: OpenTelemetryTracingEndpoint<T, E>)
        ensures
            r.tracer == self.tracer,
            r.inner == ep,
    {
        OpenTelemetryTracingEndpoint { tracer: arc_clone(&self.tracer), inner: ep }
    }
}

/// An endpoint wrapped by [`OpenTelemetryTracing`].
pub struct OpenTelemetryTracingEndpoint<T, E> {
    pub tracer: Arc<T>,
    pub inner: E,
}

/// The name of a request span: the method and the target, separated by
/// one space.
pub open spec fn span_name_text(method: Seq<char>, target: Seq<char>) -> Seq<char> {
    method + seq![' '] + target
}

/// Render the name of a request span.
pub fn request_span_name(method: &str, target: &str) -> (r: String)
    ensures
        r@ == span_name_text(method@, target@),
{
    let mut s = method.to_owned();
    push_char(&mut s, ' ');
    s.append(target);
    proof {
        assert(s@ =~= span_name_text(method@, target@));
    }
    s
}

/// The attributes recorded when a request span starts: the telemetry
/// SDK's name, version and language, then the request's method, target,
/// client address and protocol flavor, under their conventional keys.
pub fn request_span_attributes(
    sdk_name: &str,
    sdk_version: &str,
    method: &str,
    target: &str,
    client_ip: &str,
    flavor: &str,
) -> (r: Vec<(String, String)>)
    ensures
        r@.len() == 7,
        r@[0].0@ == "telemetry.sdk.name"@ && r@[0].1@ == sdk_name@,
        r@[1].0@ == "telemetry.sdk.version"@ && r@[1].1@ == sdk_version@,
        r@[2].0@ == "telemetry.sdk.language"@ && r@[2].1@ == "rust"@,
        r@[3].0@ == "http.method"@ && r@[3].1@ == method@,
        r@[4].0@ == "http.target"@ && r@[4].1@ == target@,
        r@[5].0@ == "http.client_ip"@ && r@[5].1@ == client_ip@,
        r@[6].0@ == "http.flavor"@ && r@[6].1@ == flavor@,
{
    let mut out: Vec<(String, String)> = Vec::new();
    out.push(("telemetry.sdk.name".to_owned(), sdk_name.to_owned()));
    out.push(("telemetry.sdk.version".to_owned(), sdk_version.to_owned()));
    out.push(("telemetry.sdk.language".to_owned(), "rust".to_owned()));
    out.push(("http.method".to_owned(), method.to_owned()));
    out.push(("http.target".to_owned(), target.to_owned()));
    out.push(("http.client_ip".to_owned(), client_ip.to_owned()));
    out.push(("http.flavor".to_owned(), flavor.to_owned()));
    out
}

/// The status attribute recorded when the inner endpoint answered.
pub fn response_status_attribute(status: u16) -> (r: (String, i64))
    ensures
        r.0@ == "http.status_code"@,
        r.1 == status as i64,
{
    ("http.status_code".to_owned(), status as i64)
}

/// The content-length attribute recorded when the response declares one.
pub fn response_content_length_attribute(len: u64) -> (r: (String, i64))
    ensures
        r.0@ == "http.response_content_length"@,
        r.1 == len as i64,
{
    ("http.response_content_length".to_owned(), len as i64)
}

} // verus!
