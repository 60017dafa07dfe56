//! The decisions of the forwarding handler: which request a method is forwarded as, and how
//! the trace-continuation headers land on it.

use crate::config::webhook::{lemma_names_distinct, method_name, method_named, AllowedMethod};
use crate::converter::{header_name_canonical, header_name_of, header_value_accepts, header_value_ok, pair_view, pairs_view, HeaderPair};
use crate::error::Error;
use crate::telemetry::{sentry_trace_header, trace_headers};
use crate::text::{concat, str_equals};
use vstd::prelude::*;
use vstd::string::StringSliceAdditionalSpecFns;
use vstd::slice::slice_to_vec;
use vstd::utf8::encode_utf8;

verus! {

// ---------------------------------------------------------------------------------------------
// What a method is forwarded as
// ---------------------------------------------------------------------------------------------

/// How one routed method is forwarded: as which method, and with which of the inbound parts.
#[derive(Debug, Clone, Copy, PartialEq, Eq, Structural)]
pub struct ForwardPlan {
    /// The method the forwarded request is sent with.
    pub method: AllowedMethod,
    /// Whether the inbound body travels with it.
    pub include_body: bool,
    /// Whether the inbound query string travels with it.
    pub include_params: bool,
}

/// The plan for a request whose method is named `method`: the five routed methods are
/// forwarded as themselves, all five with the query string and only `POST`, `PUT` and `PATCH`
/// with the body. Any other name has none.
pub open spec fn forward_plan(method: Seq<char>) -> Option<ForwardPlan> {
    match method_named(method) {
        Some(AllowedMethod::GET) => Some(ForwardPlan { method: AllowedMethod::GET, include_body: false, include_params: true }),
        Some(AllowedMethod::POST) => Some(ForwardPlan { method: AllowedMethod::POST, include_body: true, include_params: true }),
        Some(AllowedMethod::PUT) => Some(ForwardPlan { method: AllowedMethod::PUT, include_body: true, include_params: true }),
        Some(AllowedMethod::PATCH) => Some(ForwardPlan { method: AllowedMethod::PATCH, include_body: true, include_params: true }),
        Some(AllowedMethod::DELETE) => Some(ForwardPlan { method: AllowedMethod::DELETE, include_body: false, include_params: true }),
        _ => None,
    }
}

/// Every routed method is forwarded as itself and with its query string, and only `POST`,
/// `PUT` and `PATCH` carry the body.
pub proof fn lemma_plan_shape(method: Seq<char>)
    ensures
        forward_plan(method) matches Some(p) ==> {
            &&& method_name(p.method) == method
            &&& p.include_params
            &&& p.include_body <==> (p.method == AllowedMethod::POST || p.method == AllowedMethod::PUT || p.method == AllowedMethod::PATCH)
        },
        forward_plan(method) is Some <==> (method_named(method) is Some && method_named(method) != Some(AllowedMethod::ALL)),
{
    lemma_names_distinct();
    if let Some(m) = method_named(method) {
        assert(method_name(m) == method);
    }
}

/// Decides how a request whose method is named `method` is forwarded.
///
/// # Errors
/// [`Error::InvalidRoute`] naming the method for anything but the five routed ones, which no
/// routed request reaches.
pub fn plan(method: &str) -> (planned: Result<ForwardPlan, Error>)
    ensures
        match planned {
            Ok(p) => forward_plan(method@) == Some(p),
            Err(e) => {
                &&& forward_plan(method@) is None
                &&& e matches Error::InvalidRoute(m) && m@ == method@
            },
        },
{
    match AllowedMethod::from_exact_name(method) {
        Some(AllowedMethod::GET) => Ok(ForwardPlan { method: AllowedMethod::GET, include_body: false, include_params: true }),
        Some(AllowedMethod::POST) => Ok(ForwardPlan { method: AllowedMethod::POST, include_body: true, include_params: true }),
        Some(AllowedMethod::PUT) => Ok(ForwardPlan { method: AllowedMethod::PUT, include_body: true, include_params: true }),
        Some(AllowedMethod::PATCH) => Ok(ForwardPlan { method: AllowedMethod::PATCH, include_body: true, include_params: true }),
        Some(AllowedMethod::DELETE) => Ok(ForwardPlan { method: AllowedMethod::DELETE, include_body: false, include_params: true }),
        _ => Err(Error::invalid_route(method)),
    }
}

// ---------------------------------------------------------------------------------------------
// The reqwest calls that assemble a forwarded request
// ---------------------------------------------------------------------------------------------

/// What `reqwest::Client::get` starts for `url` on `client`.
pub uninterp spec fn get_request(client: reqwest::Client, url: reqwest::Url) -> reqwest::RequestBuilder;

/// What `reqwest::Client::post` starts for `url` on `client`.
pub uninterp spec fn post_request(client: reqwest::Client, url: reqwest::Url) -> reqwest::RequestBuilder;

/// What `reqwest::Client::put` starts for `url` on `client`.
pub uninterp spec fn put_request(client: reqwest::Client, url: reqwest::Url) -> reqwest::RequestBuilder;

/// What `reqwest::Client::patch` starts for `url` on `client`.
pub uninterp spec fn patch_request(client: reqwest::Client, url: reqwest::Url) -> reqwest::RequestBuilder;

/// What `reqwest::Client::delete` starts for `url` on `client`.
pub uninterp spec fn delete_request(client: reqwest::Client, url: reqwest::Url) -> reqwest::RequestBuilder;

/// What `reqwest::RequestBuilder::headers` makes of `request` with `headers` merged in.
pub uninterp spec fn with_headers(
    request: reqwest::RequestBuilder,
    headers: reqwest::header::HeaderMap,
) -> reqwest::RequestBuilder;

/// What `reqwest::RequestBuilder::body` makes of `request` carrying `body`.
pub uninterp spec fn with_body(request: reqwest::RequestBuilder, body: reqwest::Body) -> reqwest::RequestBuilder;

/// What `reqwest::RequestBuilder::query` makes of `request` with the pairs `params` appended
/// to its URL's query string, in their order.
pub uninterp spec fn with_query(
    request: reqwest::RequestBuilder,
    params: Seq<(Seq<char>, Seq<char>)>,
) -> reqwest::RequestBuilder;

/// The views of query pairs.
pub open spec fn params_view(params: Seq<(String, String)>) -> Seq<(Seq<char>, Seq<char>)> {
    params.map_values(|p: (String, String)| (p.0@, p.1@))
}

/// The pairs `actix_web::web::Query::<Vec<(String, String)>>::from_query` decodes out of a
/// query string, in their order, or `None` when it refuses the string.
pub uninterp spec fn query_pairs(query: Seq<char>) -> Option<Seq<(Seq<char>, Seq<char>)>>;

/// The message a query string that does not decode is refused with, given the decoder's
/// description.
pub open spec fn query_failure_message(description: Seq<char>) -> Seq<char> {
    "Can't parse the query string: "@ + description
}

/// `actix_web::web::Query::<Vec<(String, String)>>::from_query`.
///
/// Trusted: the pairs are what the decoder makes of `query` (named), in their order; a refusal
/// is handed back as its description.
#[verifier::external_body]
fn decode_query(query: &str) -> (pairs: Result<Vec<(String, String)>, String>)
    ensures
        match pairs {
            Ok(p) => query_pairs(query@) == Some(params_view(p@)),
            Err(_) => query_pairs(query@) is None,
        },
{
    match actix_web::web::Query::<Vec<(String, String)>>::from_query(query) {
        Ok(decoded) => Ok(decoded.into_inner()),
        Err(e) => Err(e.to_string()),
    }
}

/// The inbound query string as the pairs a forwarded request carries, in their order and with
/// repeated names kept.
///
/// # Errors
/// [`Error::Custom`] carrying the decoder's description when the string does not decode.
pub fn query_params(query: &str) -> (params: Result<Vec<(String, String)>, Error>)
    ensures
        match params {
            Ok(p) => query_pairs(query@) == Some(params_view(p@)),
            Err(e) => {
                &&& query_pairs(query@) is None
                &&& e matches Error::Custom(m) && exists|t: Seq<char>| m@ == #[trigger] query_failure_message(t)
            },
        },
{
    match decode_query(query) {
        Ok(p) => Ok(p),
        Err(text) => {
            let message = concat("Can't parse the query string: ", text.as_str());
            proof {
                assert(message@ == query_failure_message(text@));
            }
            Err(Error::Custom(message))
        },
    }
}

/// `reqwest::Client::get`. Trusted: the builder is the one the client starts (named).
#[verifier::external_body]
fn client_get(client: &reqwest::Client, url: reqwest::Url) -> (request: reqwest::RequestBuilder)
    ensures
        request == get_request(*client, url),
{
    client.get(url)
}

/// `reqwest::Client::post`. Trusted: the builder is the one the client starts (named).
#[verifier::external_body]
fn client_post(client: &reqwest::Client, url: reqwest::Url) -> (request: reqwest::RequestBuilder)
    ensures
        request == post_request(*client, url),
{
    client.post(url)
}

/// `reqwest::Client::put`. Trusted: the builder is the one the client starts (named).
#[verifier::external_body]
fn client_put(client: &reqwest::Client, url: reqwest::Url) -> (request: reqwest::RequestBuilder)
    ensures
        request == put_request(*client, url),
{
    client.put(url)
}

/// `reqwest::Client::patch`. Trusted: the builder is the one the client starts (named).
#[verifier::external_body]
fn client_patch(client: &reqwest::Client, url: reqwest::Url) -> (request: reqwest::RequestBuilder)
    ensures
        request == patch_request(*client, url),
{
    client.patch(url)
}

/// `reqwest::Client::delete`. Trusted: the builder is the one the client starts (named).
#[verifier::external_body]
fn client_delete(client: &reqwest::Client, url: reqwest::Url) -> (request: reqwest::RequestBuilder)
    ensures
        request == delete_request(*client, url),
{
    client.delete(url)
}

/// `reqwest::RequestBuilder::headers`. Trusted: the builder it returns is named.
#[verifier::external_body]
fn request_headers(
    request: reqwest::RequestBuilder,
    headers: reqwest::header::HeaderMap,
) -> (merged: reqwest::RequestBuilder)
    ensures
        merged == with_headers(request, headers),
{
    request.headers(headers)
}

/// `reqwest::RequestBuilder::body`. Trusted: the builder it returns is named.
#[verifier::external_body]
fn request_body(request: reqwest::RequestBuilder, body: reqwest::Body) -> (carrying: reqwest::RequestBuilder)
    ensures
        carrying == with_body(request, body),
{
    request.body(body)
}

/// `reqwest::RequestBuilder::query`, on the pairs in their order. Trusted: the builder it
/// returns is named.
#[verifier::external_body]
fn request_query(
    request: reqwest::RequestBuilder,
    params: &Vec<(String, String)>,
) -> (queried: reqwest::RequestBuilder)
    ensures
        queried == with_query(request, params_view(params@)),
{
    request.query(params)
}

/// The request a plan starts: on `client`, for `url`, with the plan's method.
pub open spec fn started_request(method: AllowedMethod, client: reqwest::Client, url: reqwest::Url) -> reqwest::RequestBuilder {
    match method {
        AllowedMethod::GET => get_request(client, url),
        AllowedMethod::POST => post_request(client, url),
        AllowedMethod::PUT => put_request(client, url),
        AllowedMethod::PATCH => patch_request(client, url),
        _ => delete_request(client, url),
    }
}

/// The request a plan assembles: started with its method, the headers merged in, then the body
/// when the plan carries it, then the query pairs when the plan carries them.
pub open spec fn assembled_request(
    plan: ForwardPlan,
    client: reqwest::Client,
    url: reqwest::Url,
    headers: reqwest::header::HeaderMap,
    body: reqwest::Body,
    params: Seq<(Seq<char>, Seq<char>)>,
) -> reqwest::RequestBuilder {
    let headed = with_headers(started_request(plan.method, client, url), headers);
    let bodied = if plan.include_body { with_body(headed, body) } else { headed };
    if plan.include_params { with_query(bodied, params) } else { bodied }
}

/// One forwarded request, assembled from the inbound one.
///
/// The method decides what comes with it. All five carry the headers and the query string; only
/// `POST`, `PUT` and `PATCH` carry the body, so a `GET` or `DELETE` that arrived with one has it
/// dropped here.
pub struct ReqwestBuilder<'a> {
    client: &'a reqwest::Client,
    url: reqwest::Url,
    body: reqwest::Body,
    headers: reqwest::header::HeaderMap,
    params: Vec<(String, String)>,
    method: &'a str,
    include_body: bool,
    include_params: bool,
}

impl<'a> ReqwestBuilder<'a> {
    /// Collects the parts. [`build`](ReqwestBuilder::build) decides which of them the method
    /// actually carries.
    pub fn new(
        client: &'a reqwest::Client,
        url: reqwest::Url,
        body: reqwest::Body,
        headers: reqwest::header::HeaderMap,
        params: Vec<(String, String)>,
        method: &'a str,
    ) -> (builder: ReqwestBuilder<'a>)
        ensures
            builder.method() == method,
            builder.held_client() == *client,
            builder.held_url() == url,
            builder.held_body() == body,
            builder.held_headers() == headers,
            builder.held_params() == params_view(params@),
            !builder.includes_body(),
            !builder.includes_params(),
    {
        ReqwestBuilder { client, url, body, headers, params, method, include_body: false, include_params: false }
    }

    /// The name of the inbound method.
    pub closed spec fn method(&self) -> &'a str {
        self.method
    }

    /// The client the request goes out on.
    pub closed spec fn held_client(&self) -> reqwest::Client {
        *self.client
    }

    /// The URL the request goes to.
    pub closed spec fn held_url(&self) -> reqwest::Url {
        self.url
    }

    /// The inbound body.
    pub closed spec fn held_body(&self) -> reqwest::Body {
        self.body
    }

    /// The headers the request carries.
    pub closed spec fn held_headers(&self) -> reqwest::header::HeaderMap {
        self.headers
    }

    /// The inbound query pairs, in their order.
    pub closed spec fn held_params(&self) -> Seq<(Seq<char>, Seq<char>)> {
        params_view(self.params@)
    }

    /// Whether the body has been decided to travel.
    pub closed spec fn includes_body(&self) -> bool {
        self.include_body
    }

    /// Whether the query string has been decided to travel.
    pub closed spec fn includes_params(&self) -> bool {
        self.include_params
    }

    /// The parts are kept as collected.
    pub closed spec fn same_parts(&self, other: &Self) -> bool {
        &&& self.client == other.client
        &&& self.url == other.url
        &&& self.body == other.body
        &&& self.headers == other.headers
        &&& self.params == other.params
        &&& self.method == other.method
    }

    /// Decides that the body travels.
    fn include_body(&mut self)
        ensures
            final(self).includes_body(),
            final(self).includes_params() == old(self).includes_params(),
            final(self).same_parts(old(self)),
    {
        self.include_body = true;
    }

    /// Decides that the query string travels.
    fn include_params(&mut self)
        ensures
            final(self).includes_params(),
            final(self).includes_body() == old(self).includes_body(),
            final(self).same_parts(old(self)),
    {
        self.include_params = true;
    }

    /// Assembles the request, attaching the body and the query string the method calls for
    /// ([`plan`]), on a builder as [`new`](ReqwestBuilder::new) collected it.
    ///
    /// # Errors
    /// [`Error::InvalidRoute`] naming the method for anything but the five routed ones.
    pub fn build(self) -> (request: Result<reqwest::RequestBuilder, Error>)
        requires
            !self.includes_body(),
            !self.includes_params(),
        ensures
            request is Ok <==> forward_plan(self.method()@) is Some,
            request matches Ok(r) ==> r == assembled_request(
                forward_plan(self.method()@)->0,
                self.held_client(),
                self.held_url(),
                self.held_headers(),
                self.held_body(),
                self.held_params(),
            ),
            request matches Err(e) ==> e matches Error::InvalidRoute(m) && m@ == self.method()@,
    {
        let ghost original = self;
        let mut builder = self;
        let planned = match plan(builder.method) {
            Ok(p) => p,
            Err(e) => return Err(e),
        };
        if planned.include_body {
            builder.include_body();
        }
        if planned.include_params {
            builder.include_params();
        }
        proof {
            assert(builder.same_parts(&original));
            assert(builder.include_body == planned.include_body);
            assert(builder.include_params == planned.include_params);
            assert(forward_plan(original.method()@) == Some(planned));
        }
        let ReqwestBuilder { client, url, body, headers, params, method: _, include_body, include_params } = builder;
        let mut request = match planned.method {
            AllowedMethod::GET => client_get(client, url),
            AllowedMethod::POST => client_post(client, url),
            AllowedMethod::PUT => client_put(client, url),
            AllowedMethod::PATCH => client_patch(client, url),
            _ => client_delete(client, url),
        };
        // Headers are always required for Cloudflare Access.
        request = request_headers(request, headers);
        if include_body {
            request = request_body(request, body);
        }
        if include_params {
            request = request_query(request, &params);
        }
        Ok(request)
    }
}

// ---------------------------------------------------------------------------------------------
// Trace continuation
// ---------------------------------------------------------------------------------------------

/// `headers` without any entry named `name`, the rest in their order.
pub open spec fn without_name(headers: Seq<(Seq<char>, Seq<u8>)>, name: Seq<char>) -> Seq<(Seq<char>, Seq<u8>)>
    decreases headers.len(),
{
    if headers.len() == 0 {
        Seq::empty()
    } else {
        let rest = without_name(headers.drop_last(), name);
        if headers.last().0 == name {
            rest
        } else {
            rest.push(headers.last())
        }
    }
}

/// `headers` with every entry named `name` replaced by one entry carrying `value`, at the end.
pub open spec fn overwritten(headers: Seq<(Seq<char>, Seq<u8>)>, name: Seq<char>, value: Seq<u8>) -> Seq<(Seq<char>, Seq<u8>)> {
    without_name(headers, name).push((name, value))
}

/// What one trace-continuation header does to the forwarded headers: when `http` takes its
/// name and its value, it overwrites every header of that name; otherwise it is skipped.
pub open spec fn propagated_one(headers: Seq<(Seq<char>, Seq<u8>)>, trace: (Seq<char>, Seq<char>)) -> Seq<(Seq<char>, Seq<u8>)> {
    match header_name_canonical(encode_utf8(trace.0)) {
        Some(name) => if header_value_accepts(encode_utf8(trace.1)) {
            overwritten(headers, name, encode_utf8(trace.1))
        } else {
            headers
        },
        None => headers,
    }
}

/// The forwarded headers after every trace-continuation header, in order.
pub open spec fn propagated(headers: Seq<(Seq<char>, Seq<u8>)>, trace: Seq<(Seq<char>, Seq<char>)>) -> Seq<(Seq<char>, Seq<u8>)>
    decreases trace.len(),
{
    if trace.len() == 0 {
        headers
    } else {
        propagated_one(propagated(headers, trace.drop_last()), trace.last())
    }
}

/// The views of trace-continuation headers.
pub open spec fn trace_view(trace: Seq<(String, String)>) -> Seq<(Seq<char>, Seq<char>)> {
    trace.map_values(|t: (String, String)| (t.0@, t.1@))
}

/// Replaces every entry named `name` with one entry carrying `value`, at the end.
fn overwrite(headers: &mut Vec<HeaderPair>, name: String, value: Vec<u8>)
    ensures
        pairs_view(final(headers)@) == overwritten(pairs_view(old(headers)@), name@, value@),
{
    let mut kept: Vec<HeaderPair> = Vec::new();
    let mut old_headers: Vec<HeaderPair> = Vec::new();
    std::mem::swap(&mut old_headers, headers);
    let mut i: usize = 0;
    while i < old_headers.len()
        invariant
            0 <= i <= old_headers@.len(),
            pairs_view(kept@) == without_name(pairs_view(old_headers@.take(i as int)), name@),
        decreases old_headers@.len() - i,
    {
        let ghost before = kept@;
        proof {
            assert(pairs_view(old_headers@.take(i + 1)).drop_last() =~= pairs_view(old_headers@.take(i as int)));
            assert(pairs_view(old_headers@.take(i + 1)).last() == pair_view(old_headers@[i as int]));
        }
        if !str_equals(old_headers[i].0.as_str(), name.as_str()) {
            let entry = (old_headers[i].0.clone(), old_headers[i].1.clone());
            proof {
                assert(entry.1@ =~= old_headers@[i as int].1@);
            }
            kept.push(entry);
            proof {
                assert(pairs_view(kept@) =~= pairs_view(before).push(pair_view(old_headers@[i as int])));
            }
        }
        i = i + 1;
    }
    proof {
        assert(old_headers@.take(old_headers@.len() as int) =~= old_headers@);
    }
    let ghost without = kept@;
    kept.push((name, value));
    proof {
        assert(pairs_view(kept@) =~= pairs_view(without).push((name@, value@)));
    }
    *headers = kept;
}

/// Overwrites the headers of a forwarded request with the trace-continuation headers `trace`.
///
/// Overwrite rather than append: the inbound value is the caller's claim about the trace, and
/// the span the target should continue is the one opened here. A header whose name or value
/// `http` refuses is skipped.
pub fn propagate_headers(headers: &mut Vec<HeaderPair>, trace: &Vec<(String, String)>)
    ensures
        pairs_view(final(headers)@) == propagated(pairs_view(old(headers)@), trace_view(trace@)),
{
    let ghost start = pairs_view(headers@);
    let mut i: usize = 0;
    while i < trace.len()
        invariant
            0 <= i <= trace@.len(),
            pairs_view(headers@) == propagated(start, trace_view(trace@.take(i as int))),
        decreases trace@.len() - i,
    {
        proof {
            assert(trace_view(trace@.take(i + 1)).drop_last() =~= trace_view(trace@.take(i as int)));
            assert(trace_view(trace@.take(i + 1)).last() == (trace@[i as int].0@, trace@[i as int].1@));
        }
        let name = trace[i].0.as_str();
        let value = trace[i].1.as_str();
        match header_name_of(name.as_bytes()) {
            Some(canonical) => {
                if header_value_ok(value.as_bytes()) {
                    overwrite(headers, canonical, slice_to_vec(value.as_bytes()));
                }
            },
            None => {},
        }
        i = i + 1;
    }
    proof {
        assert(trace@.take(trace@.len() as int) =~= trace@);
    }
}

/// Overwrites the trace-continuation headers of a forwarded request with this hop's, as
/// [`propagate_headers`] does with what [`trace_headers`] hands back: at most the one
/// `sentry-trace` header, and nothing when Sentry is off.
pub fn propagate_trace(headers: &mut Vec<HeaderPair>)
    ensures
        exists|trace: Seq<(Seq<char>, Seq<char>)>|
            #![trigger propagated(pairs_view(old(headers)@), trace)]
            {
                &&& trace.len() <= 1
                &&& forall|i: int| 0 <= i < trace.len() ==> (#[trigger] trace[i]).0 == sentry_trace_header()
                &&& pairs_view(final(headers)@) == propagated(pairs_view(old(headers)@), trace)
            },
{
    let ghost before = pairs_view(headers@);
    let trace = trace_headers();
    propagate_headers(headers, &trace);
    proof {
        let t = trace_view(trace@);
        assert(pairs_view(headers@) == propagated(before, t));
        assert forall|i: int| 0 <= i < t.len() implies (#[trigger] t[i]).0 == sentry_trace_header() by {
            assert(t[i].0 == trace@[i].0@);
        }
    }
}

/// Removing a name keeps every header of another name, in order: exactly the headers whose
/// name differs.
pub proof fn lemma_without_name_keeps_other_names(headers: Seq<(Seq<char>, Seq<u8>)>, name: Seq<char>)
    ensures
        without_name(headers, name) == headers.filter(|e: (Seq<char>, Seq<u8>)| e.0 != name),
    decreases headers.len(),
{
    reveal(Seq::filter);
    let other = |e: (Seq<char>, Seq<u8>)| e.0 != name;
    if headers.len() > 0 {
        lemma_without_name_keeps_other_names(headers.drop_last(), name);
        assert(headers.drop_last().filter(|e: (Seq<char>, Seq<u8>)| e.0 != name) == headers.drop_last().filter(other));
        assert(headers.filter(other) == if other(headers.last()) {
            headers.drop_last().filter(other).push(headers.last())
        } else {
            headers.drop_last().filter(other)
        });
    }
    assert(headers.filter(|e: (Seq<char>, Seq<u8>)| e.0 != name) == headers.filter(other));
}

/// Overwriting a name keeps every header of another name, in order, and adds one header of
/// that name carrying the new value at the end.
pub proof fn lemma_overwrite_keeps_other_names(headers: Seq<(Seq<char>, Seq<u8>)>, name: Seq<char>, value: Seq<u8>)
    ensures
        overwritten(headers, name, value) == headers.filter(|e: (Seq<char>, Seq<u8>)| e.0 != name).push((name, value)),
{
    lemma_without_name_keeps_other_names(headers, name);
}

/// A trace-continuation header whose name and value `http` takes replaces every header of its
/// canonical name and keeps every other header in order; one that `http` refuses changes
/// nothing.
pub proof fn lemma_trace_header_replaces_only_its_name(
    headers: Seq<(Seq<char>, Seq<u8>)>,
    trace: (Seq<char>, Seq<char>),
)
    ensures
        header_name_canonical(encode_utf8(trace.0)) matches Some(name) ==> (header_value_accepts(encode_utf8(trace.1))
            ==> propagated_one(headers, trace) == headers.filter(|e: (Seq<char>, Seq<u8>)| e.0 != name).push(
                (name, encode_utf8(trace.1)),
            )),
        !(header_name_canonical(encode_utf8(trace.0)) is Some && header_value_accepts(encode_utf8(trace.1)))
            ==> propagated_one(headers, trace) == headers,
{
    if let Some(name) = header_name_canonical(encode_utf8(trace.0)) {
        lemma_overwrite_keeps_other_names(headers, name, encode_utf8(trace.1));
    }
}

/// After a header is overwritten, exactly one entry carries its name, and it is the last one.
pub proof fn lemma_overwritten_once(headers: Seq<(Seq<char>, Seq<u8>)>, name: Seq<char>, value: Seq<u8>)
    ensures
        overwritten(headers, name, value).last() == (name, value),
        forall|i: int| 0 <= i < overwritten(headers, name, value).len() - 1 ==> (#[trigger] overwritten(headers, name, value)[i]).0 != name,
    decreases headers.len(),
{
    lemma_without_name(headers, name);
}

/// No entry of `without_name(headers, name)` carries `name`, and each of them is an entry of
/// `headers`.
pub proof fn lemma_without_name(headers: Seq<(Seq<char>, Seq<u8>)>, name: Seq<char>)
    ensures
        forall|i: int| 0 <= i < without_name(headers, name).len() ==> (#[trigger] without_name(headers, name)[i]).0 != name,
        forall|i: int| 0 <= i < without_name(headers, name).len() ==> headers.contains(#[trigger] without_name(headers, name)[i]),
    decreases headers.len(),
{
    if headers.len() > 0 {
        lemma_without_name(headers.drop_last(), name);
        let rest = without_name(headers.drop_last(), name);
        assert forall|i: int| 0 <= i < rest.len() implies headers.contains(#[trigger] rest[i]) by {
            let k = choose|k: int| 0 <= k < headers.drop_last().len() && headers.drop_last()[k] == rest[i];
            assert(headers[k] == rest[i]);
        }
        assert(headers[headers.len() - 1] == headers.last());
    }
}

} // verus!
