use crate::context::{lemma_lookup_placed, lookup, placed, Datum, ReqContext, Value};
use crate::encoding::{negotiated, CodecError, CodecFault, Encoding};
use crate::erring::{answer_status, Failure, HTTPError};
use crate::headers::{fields, header_or_empty, map_clone, map_contains, map_remove, text_or_empty};
use crate::text::lower;
use axum::http::header::HeaderMap;
use vstd::prelude::*;
use vstd::string::*;

verus! {

/// The version of HTTP that a message travels in.
#[derive(Clone, Copy, Debug, PartialEq, Eq, Structural)]
pub enum Protocol {
    Http09,
    Http10,
    Http11,
    H2,
    H3,
}

/// What the agent reads of a request that came in.
#[derive(Debug)]
pub struct Inbound {
    pub method: String,
    /// The path of the request target; empty where the target has none.
    pub path: String,
    /// The path and the query of the request target as they were written, where
    /// the target has them.
    pub path_and_query: Option<String>,
    pub headers: HeaderMap,
}

/// The request that goes upstream.
#[derive(Debug)]
pub struct Outbound {
    pub method: String,
    /// The URL as it was put together from the request that came in, which the
    /// parser has accepted.
    pub url: String,
    pub protocol: Protocol,
    pub headers: HeaderMap,
    /// The coding that the fields of the request that came in stand for.
    pub encoding: Encoding,
    /// The body where it was read in full; without one the body of the request
    /// that came in is passed on as it is.
    pub body: Option<Vec<u8>>,
}

/// The head of the response that came from upstream.
#[derive(Debug)]
pub struct UpstreamHead {
    pub status: u16,
    pub protocol: Protocol,
    pub headers: HeaderMap,
}

/// Where a request stands, together with what has just come in for it.
#[derive(Debug)]
pub enum Step {
    /// A request has come in.
    Request(Inbound),
    /// The body that `Action::ReadBody` asked for has been read in full, or reading
    /// it has failed with this message.
    Body { outbound: Outbound, body: Result<Vec<u8>, String> },
    /// The call that `Action::Dispatch` asked for has ended, with the head of a
    /// response or with the message of a transport error.
    Upstream(Result<UpstreamHead, String>),
}

/// What is to be done next for a request.
#[derive(Debug)]
pub enum Action {
    /// Read the body in full and come back with it.
    ReadBody(Outbound),
    /// Send the request upstream and come back with what it gave.
    Dispatch(Outbound),
    /// Hand the head on and stream the body after it. Nothing follows.
    Relay(UpstreamHead),
    /// Answer with the failure. Nothing follows.
    Reject(HTTPError),
}

/// What `Url::parse` gives for a text: the URL as the parser writes it out again,
/// or the message of the error.
pub uninterp spec fn url_parsed(input: Seq<char>) -> Result<Seq<char>, Seq<char>>;

/// A result of two texts, each as a sequence of characters.
pub open spec fn texts(r: Result<String, String>) -> Result<Seq<char>, Seq<char>> {
    match r {
        Ok(t) => Ok(t@),
        Err(e) => Err(e@),
    }
}

/// `Url::parse` on a text, the URL handed back as the text that it is written out
/// as, an error as its message.
#[verifier::external_body]
fn parse_url(input: &str) -> (r: Result<String, String>)
    ensures
        texts(r) == url_parsed(input@),
{
    match reqwest::Url::parse(input) {
        Ok(url) => Ok(String::from(url)),
        Err(e) => Err(e.to_string()),
    }
}

/// What is written of the request target: the path and the query, else the path
/// alone.
pub open spec fn written_target(inbound: Inbound) -> Seq<char> {
    match inbound.path_and_query {
        Some(q) => q@,
        None => inbound.path@,
    }
}

/// The part of the request target that goes into the upstream URL: what is written
/// of it, octet for octet, and the root where nothing is written.
pub open spec fn target_of(inbound: Inbound) -> Seq<char> {
    if written_target(inbound).len() == 0 {
        "/"@
    } else {
        written_target(inbound)
    }
}

/// The URL of the upstream request for a request that came in, as a text.
pub open spec fn url_text(inbound: Inbound) -> Seq<char> {
    "https://"@ + text_or_empty(inbound.headers, "x-forwarded-host"@) + target_of(inbound)
}

/// The names of the fields that say how a request was routed; none of them goes
/// upstream.
pub open spec fn routing_fields() -> Set<Seq<char>> {
    set!["host"@, "forwarded"@, "x-forwarded-for"@, "x-forwarded-host"@, "x-forwarded-proto"@]
}

/// The names of the fields that describe a body as it was encoded; they go when
/// the body is decoded.
pub open spec fn coding_fields() -> Set<Seq<char>> {
    set!["content-encoding"@, "content-length"@]
}

/// Whether the fields of a request say that it has a body to read in full.
pub open spec fn declares_body(f: Map<Seq<char>, Seq<Seq<u8>>>) -> bool {
    f.contains_key("content-length"@) || f.contains_key("content-encoding"@)
}

/// The names that the agent looks fields up by are written in lower case.
pub proof fn lemma_field_names()
    ensures
        lower("host"@) == "host"@,
        lower("forwarded"@) == "forwarded"@,
        lower("x-forwarded-for"@) == "x-forwarded-for"@,
        lower("x-forwarded-host"@) == "x-forwarded-host"@,
        lower("x-forwarded-proto"@) == "x-forwarded-proto"@,
        lower("content-encoding"@) == "content-encoding"@,
        lower("content-length"@) == "content-length"@,
{
    reveal_strlit("host");
    reveal_strlit("forwarded");
    reveal_strlit("x-forwarded-for");
    reveal_strlit("x-forwarded-host");
    reveal_strlit("x-forwarded-proto");
    reveal_strlit("content-encoding");
    reveal_strlit("content-length");
}

/// The URL of the upstream request as a text: the scheme `https`, the host, and
/// the path and query exactly as given.
pub fn upstream_url(host: &str, path_and_query: &str) -> (r: String)
    ensures
        r@ == "https://"@ + host@ + path_and_query@,
{
    let mut r = "https://".to_owned();
    r.append(host);
    r.append(path_and_query);
    r
}

/// What becomes of the URL text `text` once the parser has seen it, where `parsed`
/// is what the parser gave: the text itself where the parser took it, or the
/// failure 400 with the parser's message.
pub fn checked_url(text: String, parsed: Result<String, String>) -> (r: Result<
    String,
    HTTPError,
>)
    ensures
        match parsed {
            Ok(_) => r == Ok::<String, HTTPError>(text),
            Err(message) => r == Err::<String, HTTPError>(HTTPError(400, message)),
        },
{
    match parsed {
        Ok(_) => Ok(text),
        Err(message) => Err(HTTPError(400, message)),
    }
}

/// The fields that go upstream: all that came in but those that say how the
/// request was routed.
pub fn forwarded_headers(headers: &HeaderMap) -> (r: HeaderMap)
    ensures
        fields(r) == fields(*headers).remove_keys(routing_fields()),
{
    proof {
        lemma_field_names();
    }
    let mut r = map_clone(headers);
    map_remove(&mut r, "host");
    map_remove(&mut r, "forwarded");
    map_remove(&mut r, "x-forwarded-for");
    map_remove(&mut r, "x-forwarded-host");
    map_remove(&mut r, "x-forwarded-proto");
    r
}

/// Whether `out` is the request that goes upstream for `inbound`, before anything
/// is known of its body: it has the method of the request that came in, the URL
/// put together from its forwarding host and its target, and its fields but the
/// routing ones, and it is sent over HTTP/1.1 whatever that request came in.
pub open spec fn forwards(out: Outbound, inbound: Inbound) -> bool {
    &&& out.method == inbound.method
    &&& out.url@ == url_text(inbound)
    &&& out.protocol == Protocol::Http11
    &&& fields(out.headers) == fields(inbound.headers).remove_keys(routing_fields())
    &&& out.encoding == negotiated(fields(inbound.headers))
    &&& out.body is None
}

/// What the agent does with a request that has come in, and what it records. The
/// diagnostics go from `before` to `after`.
pub open spec fn routed(
    inbound: Inbound,
    before: Seq<(Seq<char>, Datum)>,
    r: Action,
    after: Seq<(Seq<char>, Datum)>,
) -> bool {
    let host = text_or_empty(inbound.headers, "x-forwarded-host"@);
    if host.len() == 0 {
        &&& r matches Action::Reject(e)
        &&& e@ == (Failure { code: 400, message: "X-Forwarded-Host is empty"@ })
        &&& after == before
    } else {
        match url_parsed(url_text(inbound)) {
            Err(message) => {
                &&& r matches Action::Reject(e)
                &&& e@ == (Failure { code: 400, message })
                &&& after == before
            },
            Ok(_) => {
                &&& after == placed(
                    before,
                    "encoding"@,
                    Datum::Text(negotiated(fields(inbound.headers)).token()),
                )
                &&& if declares_body(fields(inbound.headers)) {
                    r matches Action::ReadBody(out) && forwards(out, inbound)
                } else {
                    r matches Action::Dispatch(out) && forwards(out, inbound)
                }
            },
        }
    }
}

/// Whether `out` is `outbound` with another body and other fields.
pub open spec fn same_call(out: Outbound, outbound: Outbound) -> bool {
    &&& out.method == outbound.method
    &&& out.url == outbound.url
    &&& out.protocol == outbound.protocol
    &&& out.encoding == outbound.encoding
}

/// What the agent does once the body of a request has been read in full, where
/// `decoded` is what decoding it gave, and what it records.
pub open spec fn settled(
    outbound: Outbound,
    body: Seq<u8>,
    decoded: Result<Seq<u8>, CodecFault>,
    before: Seq<(Seq<char>, Datum)>,
    r: Action,
    after: Seq<(Seq<char>, Datum)>,
) -> bool {
    let sized = placed(before, "req_body_size"@, Datum::Number(body.len() as u64));
    match decoded {
        Err(fault) => {
            &&& r matches Action::Reject(e)
            &&& e@ == (Failure { code: 400, message: fault.message })
            &&& after == sized
        },
        Ok(data) => {
            &&& r matches Action::Dispatch(out)
            &&& same_call(out, outbound)
            &&& fields(out.headers) == fields(outbound.headers).remove_keys(coding_fields())
            &&& out.body matches Some(b)
            &&& b@ == data
            &&& after == placed(
                sized,
                "req_body_decoded_size"@,
                Datum::Number(data.len() as u64),
            )
        },
    }
}

/// Whether the body of a request is to be decoded: the request names a coding for
/// it, and the coding is one that is known. A `Content-Encoding` with any other
/// token counts as none.
pub open spec fn comes_encoded(outbound: Outbound) -> bool {
    fields(outbound.headers).contains_key("content-encoding"@) && outbound.encoding
        != Encoding::Identity
}

/// What the agent does once the body of a request has been read in full, and what
/// it records: a body that came encoded is decoded, any other goes on as it is,
/// with the fields as they are.
pub open spec fn prepared(
    outbound: Outbound,
    body: Vec<u8>,
    before: Seq<(Seq<char>, Datum)>,
    r: Action,
    after: Seq<(Seq<char>, Datum)>,
) -> bool {
    if comes_encoded(outbound) {
        settled(outbound, body@, outbound.encoding.decoded(body@), before, r, after)
    } else {
        &&& r matches Action::Dispatch(out)
        &&& same_call(out, outbound)
        &&& out.headers == outbound.headers
        &&& out.body == Some(body)
        &&& after == before
    }
}

/// What the agent does once the upstream call has ended, and what it records.
pub open spec fn relayed(
    result: Result<UpstreamHead, String>,
    before: Seq<(Seq<char>, Datum)>,
    r: Action,
    after: Seq<(Seq<char>, Datum)>,
) -> bool {
    match result {
        Err(message) => {
            &&& r matches Action::Reject(e)
            &&& e@ == (Failure { code: 500, message: message@ })
            &&& after == before
        },
        Ok(head) => {
            &&& r == Action::Relay(head)
            &&& after == placed(
                placed(
                    before,
                    "res_content_encoding"@,
                    Datum::Text(text_or_empty(head.headers, "content-encoding"@)),
                ),
                "res_content_length"@,
                Datum::Text(text_or_empty(head.headers, "content-length"@)),
            )
        },
    }
}

/// What the agent does at a step, and what it records.
pub open spec fn handled(
    step: Step,
    before: Seq<(Seq<char>, Datum)>,
    r: Action,
    after: Seq<(Seq<char>, Datum)>,
) -> bool {
    match step {
        Step::Request(inbound) => routed(inbound, before, r, after),
        Step::Body { outbound, body } => match body {
            Ok(body) => prepared(outbound, body, before, r, after),
            Err(message) => {
                &&& r matches Action::Reject(e)
                &&& e@ == (Failure { code: 500, message: message@ })
                &&& after == before
            },
        },
        Step::Upstream(result) => relayed(result, before, r, after),
    }
}

/// The place of a step in the course of a request.
pub open spec fn place_of(step: Step) -> nat {
    match step {
        Step::Request(_) => 0,
        Step::Body { .. } => 1,
        Step::Upstream(_) => 2,
    }
}

/// The place of the step that an action asks for, where it asks for one.
pub open spec fn awaited(action: Action) -> Option<nat> {
    match action {
        Action::ReadBody(_) => Some(1),
        Action::Dispatch(_) => Some(2),
        Action::Relay(_) => None,
        Action::Reject(_) => None,
    }
}

/// Whether a context is the same request's, made at the same time.
pub open spec fn same_request(a: ReqContext, b: ReqContext) -> bool {
    &&& a.rid == b.rid
    &&& a.unix_ms == b.unix_ms
    &&& a.start == b.start
}

/// Takes in a request: checks the forwarding host, builds the upstream URL, notes
/// the negotiated coding and strips the routing fields.
pub fn route(inbound: Inbound, ctx: &mut ReqContext) -> (r: Action)
    ensures
        routed(inbound, old(ctx).kv@, r, final(ctx).kv@),
        same_request(*final(ctx), *old(ctx)),
{
    let host = header_or_empty(&inbound.headers, "x-forwarded-host");
    if host.as_str().is_empty() {
        return Action::Reject(HTTPError(400, "X-Forwarded-Host is empty".to_owned()));
    }
    let written = match &inbound.path_and_query {
        Some(q) => q.as_str(),
        None => inbound.path.as_str(),
    };
    let target = if written.is_empty() {
        "/"
    } else {
        written
    };
    let text = upstream_url(host.as_str(), target);
    let parsed = parse_url(text.as_str());
    let url = match checked_url(text, parsed) {
        Ok(url) => url,
        Err(e) => {
            return Action::Reject(e);
        },
    };
    let encoding = Encoding::from_header(&inbound.headers);
    ctx.set("encoding", Value::Text(encoding.to_string()));
    let headers = forwarded_headers(&inbound.headers);
    proof {
        lemma_field_names();
    }
    let reads = map_contains(&inbound.headers, "content-length") || map_contains(
        &inbound.headers,
        "content-encoding",
    );
    let out = Outbound {
        method: inbound.method,
        url,
        protocol: Protocol::Http11,
        headers,
        encoding,
        body: None,
    };
    if reads {
        Action::ReadBody(out)
    } else {
        Action::Dispatch(out)
    }
}

/// Goes on with a body that was read in full and came encoded, where `decoded` is
/// what decoding it gave: a body that did not decode is the client's fault, a
/// decoded one goes upstream without the fields that described it encoded.
pub fn settle_body(
    outbound: Outbound,
    body: &Vec<u8>,
    decoded: Result<Vec<u8>, CodecError>,
    ctx: &mut ReqContext,
) -> (r: Action)
    ensures
        settled(
            outbound,
            body@,
            match decoded {
                Ok(data) => Ok(data@),
                Err(e) => Err(e@),
            },
            old(ctx).kv@,
            r,
            final(ctx).kv@,
        ),
        same_request(*final(ctx), *old(ctx)),
{
    ctx.set("req_body_size", Value::Number(body.len() as u64));
    match decoded {
        Err(e) => Action::Reject(HTTPError(400, e.message)),
        Ok(data) => {
            proof {
                lemma_field_names();
            }
            let mut headers = outbound.headers;
            let ghost given = fields(headers);
            map_remove(&mut headers, "content-encoding");
            map_remove(&mut headers, "content-length");
            assert(fields(headers) =~= given.remove_keys(coding_fields()));
            ctx.set("req_body_decoded_size", Value::Number(data.len() as u64));
            Action::Dispatch(
                Outbound {
                    method: outbound.method,
                    url: outbound.url,
                    protocol: outbound.protocol,
                    headers,
                    encoding: outbound.encoding,
                    body: Some(data),
                },
            )
        },
    }
}

/// Goes on with a body that was read in full: one that came encoded in a known
/// coding is decoded under it, any other goes upstream as it is.
pub fn prepare_body(outbound: Outbound, body: Vec<u8>, ctx: &mut ReqContext) -> (r: Action)
    ensures
        prepared(outbound, body, old(ctx).kv@, r, final(ctx).kv@),
        same_request(*final(ctx), *old(ctx)),
{
    proof {
        lemma_field_names();
    }
    if map_contains(&outbound.headers, "content-encoding") && !outbound.encoding.identity() {
        let decoded = outbound.encoding.decode_all(body.as_slice());
        settle_body(outbound, &body, decoded, ctx)
    } else {
        Action::Dispatch(
            Outbound {
                method: outbound.method,
                url: outbound.url,
                protocol: outbound.protocol,
                headers: outbound.headers,
                encoding: outbound.encoding,
                body: Some(body),
            },
        )
    }
}

/// Goes on with what the upstream call gave: a transport error is answered with
/// 500 and its message, a response is handed on as it is, with its coding and its
/// length noted.
pub fn relay(result: Result<UpstreamHead, String>, ctx: &mut ReqContext) -> (r: Action)
    ensures
        relayed(result, old(ctx).kv@, r, final(ctx).kv@),
        same_request(*final(ctx), *old(ctx)),
{
    match result {
        Err(message) => Action::Reject(HTTPError(500, message)),
        Ok(head) => {
            ctx.set(
                "res_content_encoding",
                Value::Text(header_or_empty(&head.headers, "content-encoding")),
            );
            ctx.set(
                "res_content_length",
                Value::Text(header_or_empty(&head.headers, "content-length")),
            );
            Action::Relay(head)
        },
    }
}

/// One step of the agent for one request: from where the request stands and what
/// has come in for it to what is to be done next. A body that could not be read is
/// answered with 500 and the message of the failure.
pub fn handler(step: Step, ctx: &mut ReqContext) -> (r: Action)
    ensures
        handled(step, old(ctx).kv@, r, final(ctx).kv@),
        same_request(*final(ctx), *old(ctx)),
{
    match step {
        Step::Request(inbound) => route(inbound, ctx),
        Step::Body { outbound, body } => match body {
            Ok(body) => prepare_body(outbound, body, ctx),
            Err(message) => Action::Reject(HTTPError(500, message)),
        },
        Step::Upstream(result) => relay(result, ctx),
    }
}

/// The request that an action sends or is about to send upstream.
pub open spec fn outbound_of(action: Action) -> Option<Outbound> {
    match action {
        Action::ReadBody(out) => Some(out),
        Action::Dispatch(out) => Some(out),
        _ => None,
    }
}

/// The course of a request only goes forward: the step that an action asks for
/// comes later than the step that gave the action, so no step is taken twice, and a
/// body is read only for a request that has just come in.
pub proof fn lemma_course_goes_forward(
    step: Step,
    before: Seq<(Seq<char>, Datum)>,
    r: Action,
    after: Seq<(Seq<char>, Datum)>,
)
    requires
        handled(step, before, r, after),
    ensures
        awaited(r) matches Some(next) ==> place_of(step) < next,
        r is ReadBody ==> step is Request,
        r is Relay ==> step is Upstream,
{
}

/// A request whose forwarding host is absent, empty or not a text is answered with
/// the status 400 and the text "X-Forwarded-Host is empty"; nothing goes upstream
/// and nothing is recorded.
pub proof fn lemma_missing_host_rejected(
    inbound: Inbound,
    before: Seq<(Seq<char>, Datum)>,
    r: Action,
    after: Seq<(Seq<char>, Datum)>,
)
    requires
        routed(inbound, before, r, after),
        text_or_empty(inbound.headers, "x-forwarded-host"@).len() == 0,
    ensures
        r matches Action::Reject(e) && answer_status(e.0) == 400 && e.1@
            == "X-Forwarded-Host is empty"@,
        outbound_of(r) is None,
        after == before,
{
}

/// The URL of the request that goes upstream is the scheme `https`, the forwarding
/// host, and the path and query as they were written, octet for octet; a request
/// goes upstream only under a URL that the parser takes.
pub proof fn lemma_url_from_request(
    inbound: Inbound,
    before: Seq<(Seq<char>, Datum)>,
    r: Action,
    after: Seq<(Seq<char>, Datum)>,
)
    requires
        routed(inbound, before, r, after),
        outbound_of(r) is Some,
    ensures
        outbound_of(r)->Some_0.url@ == "https://"@ + text_or_empty(
            inbound.headers,
            "x-forwarded-host"@,
        ) + target_of(inbound),
        written_target(inbound).len() > 0 ==> target_of(inbound) == written_target(inbound),
        url_parsed(outbound_of(r)->Some_0.url@) is Ok,
{
}

/// A body under a `Content-Encoding` that names no known coding goes upstream as
/// it came, with the fields as they came, and nothing is recorded.
pub proof fn lemma_unknown_coding_passes(
    outbound: Outbound,
    body: Vec<u8>,
    before: Seq<(Seq<char>, Datum)>,
    r: Action,
    after: Seq<(Seq<char>, Datum)>,
)
    requires
        prepared(outbound, body, before, r, after),
        outbound.encoding == Encoding::Identity,
    ensures
        r matches Action::Dispatch(out) && out.headers == outbound.headers && out.body == Some(
            body,
        ),
        after == before,
{
}

/// No routing field of the request that came in goes upstream, and every other
/// field goes upstream with the values it came with.
pub proof fn lemma_routing_fields_stripped(
    inbound: Inbound,
    before: Seq<(Seq<char>, Datum)>,
    r: Action,
    after: Seq<(Seq<char>, Datum)>,
    name: Seq<char>,
)
    requires
        routed(inbound, before, r, after),
        outbound_of(r) is Some,
    ensures
        routing_fields().contains(name) ==> !fields(outbound_of(r)->Some_0.headers).contains_key(
            name,
        ),
        !routing_fields().contains(name) ==> fields(
            outbound_of(r)->Some_0.headers,
        ).contains_key(name) == fields(inbound.headers).contains_key(name),
        !routing_fields().contains(name) && fields(inbound.headers).contains_key(name) ==> fields(
            outbound_of(r)->Some_0.headers,
        )[name] == fields(inbound.headers)[name],
{
}

/// Reading the body adds no field: what goes upstream after it holds only fields
/// that the request held before it.
pub proof fn lemma_body_adds_no_field(
    outbound: Outbound,
    body: Vec<u8>,
    before: Seq<(Seq<char>, Datum)>,
    r: Action,
    after: Seq<(Seq<char>, Datum)>,
    name: Seq<char>,
)
    requires
        prepared(outbound, body, before, r, after),
        r matches Action::Dispatch(out) && fields(out.headers).contains_key(name),
    ensures
        fields(outbound.headers).contains_key(name),
        r matches Action::Dispatch(out) && fields(out.headers)[name] == fields(
            outbound.headers,
        )[name],
{
}

/// A body that came encoded and decodes to `data` goes upstream as `data`, without
/// the fields `Content-Encoding` and `Content-Length`, and the sizes of the body
/// before and after the decoding are recorded.
pub proof fn lemma_encoded_body_decoded(
    outbound: Outbound,
    body: Vec<u8>,
    before: Seq<(Seq<char>, Datum)>,
    r: Action,
    after: Seq<(Seq<char>, Datum)>,
    data: Seq<u8>,
)
    requires
        prepared(outbound, body, before, r, after),
        fields(outbound.headers).contains_key("content-encoding"@),
        outbound.encoding.decoded(body@) == Ok::<Seq<u8>, CodecFault>(data),
    ensures
        r matches Action::Dispatch(out) && out.body matches Some(b) && b@ == data,
        r matches Action::Dispatch(out) && !fields(out.headers).contains_key("content-encoding"@)
            && !fields(out.headers).contains_key("content-length"@),
        lookup(after, "req_body_size"@) == Some(Datum::Number(body@.len() as u64)),
        lookup(after, "req_body_decoded_size"@) == Some(Datum::Number(data.len() as u64)),
{
    reveal_strlit("req_body_size");
    reveal_strlit("req_body_decoded_size");
    let sized = placed(before, "req_body_size"@, Datum::Number(body@.len() as u64));
    lemma_lookup_placed(before, "req_body_size"@, Datum::Number(body@.len() as u64), "req_body_size"@);
    lemma_lookup_placed(
        sized,
        "req_body_decoded_size"@,
        Datum::Number(data.len() as u64),
        "req_body_size"@,
    );
    lemma_lookup_placed(
        sized,
        "req_body_decoded_size"@,
        Datum::Number(data.len() as u64),
        "req_body_decoded_size"@,
    );
}

} // verus!
