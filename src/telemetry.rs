use vstd::prelude::*;

verus! {

/// tracing's span handle, carried opaquely by the root span.
#[verifier::external_type_specification]
#[verifier::external_body]
pub struct ExSpan(tracing::Span);

/// pavex's response, read only for its status code.
#[verifier::external_type_specification]
#[verifier::external_body]
pub struct ExResponse(pavex::response::Response);

/// The error of `String::from_utf8`, which ASCII input never produces.
#[verifier::external_type_specification]
#[verifier::external_body]
pub struct ExFromUtf8Error(std::string::FromUtf8Error);

/// The protocol version of an incoming request.
///
/// `Other` carries the debug rendering of a version outside the five known ones.
#[derive(Debug, Clone)]
pub enum HttpVersion {
    Http09,
    Http10,
    Http11,
    Http2,
    Http3,
    Other(String),
}

/// The text recorded as the span's protocol flavor for a version.
pub open spec fn flavor_of(version: HttpVersion) -> Seq<char> {
    match version {
        HttpVersion::Http09 => "0.9"@,
        HttpVersion::Http10 => "1.0"@,
        HttpVersion::Http11 => "1.1"@,
        HttpVersion::Http2 => "2.0"@,
        HttpVersion::Http3 => "3.0"@,
        HttpVersion::Other(debug) => debug@,
    }
}

/// Return the HTTP version as a string.
pub fn http_flavor(version: &HttpVersion) -> (r: String)
    ensures
        r@ == flavor_of(*version),
{
    match version {
        HttpVersion::Http09 => "0.9".to_owned(),
        HttpVersion::Http10 => "1.0".to_owned(),
        HttpVersion::Http11 => "1.1".to_owned(),
        HttpVersion::Http2 => "2.0".to_owned(),
        HttpVersion::Http3 => "3.0".to_owned(),
        HttpVersion::Other(debug) => debug.clone(),
    }
}


/// A byte that a header value may hold and still be read as text: visible
/// ASCII or a horizontal tab.
pub open spec fn is_visible_ascii(b: u8) -> bool {
    (32 <= b && b < 127) || b == 9
}

/// Whether every byte of a header value is visible ASCII.
pub open spec fn is_header_text(bytes: Seq<u8>) -> bool {
    forall|i: int| 0 <= i < bytes.len() ==> is_visible_ascii(#[trigger] bytes[i])
}

/// The characters of an ASCII byte sequence, one per byte.
pub open spec fn ascii_chars(bytes: Seq<u8>) -> Seq<char> {
    bytes.map_values(|b: u8| b as char)
}

/// The user agent recorded on the span: the header's text, or the empty
/// string when the header is missing or does not read as text.
pub open spec fn user_agent_of(header: Option<Vec<u8>>) -> Seq<char> {
    match header {
        Some(bytes) => if is_header_text(bytes@) {
            ascii_chars(bytes@)
        } else {
            Seq::empty()
        },
        None => Seq::empty(),
    }
}

/// Relies on `String::from_utf8`: bytes that are all below 128 are valid
/// UTF-8, and each of them decodes to the character of the same code.
#[verifier::external_body]
fn string_from_ascii(bytes: Vec<u8>) -> (r: Result<String, std::string::FromUtf8Error>)
    ensures
        (forall|i: int| 0 <= i < bytes@.len() ==> #[trigger] bytes@[i] < 128) ==> (r is Ok
            && r->Ok_0@ == ascii_chars(bytes@)),
{
    String::from_utf8(bytes)
}

/// Read a header value as text, as `http`'s `HeaderValue::to_str` does: `None`
/// when some byte is neither visible ASCII nor a tab.
pub fn header_to_str(bytes: &Vec<u8>) -> (r: Option<String>)
    ensures
        r is Some <==> is_header_text(bytes@),
        r is Some ==> r->0@ == ascii_chars(bytes@),
{
    let mut i: usize = 0;
    while i < bytes.len()
        invariant
            0 <= i <= bytes@.len(),
            forall|j: int| 0 <= j < i ==> is_visible_ascii(#[trigger] bytes@[j]),
        decreases bytes@.len() - i,
    {
        let b = bytes[i];
        if !((32 <= b && b < 127) || b == 9) {
            return None;
        }
        i = i + 1;
    }
    match string_from_ascii(bytes.clone()) {
        Ok(text) => Some(text),
        Err(_) => None,
    }
}

/// The user agent for the span, from the raw `User-Agent` header value if any.
pub fn user_agent(header: &Option<Vec<u8>>) -> (r: String)
    ensures
        r@ == user_agent_of(*header),
        header is None ==> r@.len() == 0,
{
    match header {
        Some(bytes) => match header_to_str(bytes) {
            Some(text) => text,
            None => String::new(),
        },
        None => String::new(),
    }
}


/// The parts of an incoming request's head that the root span describes.
#[derive(Debug, Clone)]
pub struct RequestHead {
    /// The request method, as the client sent it.
    pub method: String,
    /// The protocol version.
    pub version: HttpVersion,
    /// The raw bytes of the `User-Agent` header, if the request has one.
    pub user_agent: Option<Vec<u8>>,
    /// The path and query of the request target, if it has any.
    pub path_and_query: Option<String>,
}

/// The values a root span carries, under the HTTP semantic field names.
#[derive(Debug, Clone)]
pub struct SpanFields {
    /// `http.method`
    pub method: String,
    /// `http.flavor`
    pub flavor: String,
    /// `user_agent.original`
    pub user_agent: String,
    /// `http.route`
    pub route: String,
    /// `http.target`
    pub target: String,
    /// `http.response.status_code`: unset until the response is known.
    pub status_code: Option<u16>,
}

/// The request target recorded on the span: its path and query, or nothing.
pub open spec fn target_of(path_and_query: Option<String>) -> Seq<char> {
    match path_and_query {
        Some(p) => p@,
        None => Seq::empty(),
    }
}

/// Whether the request fields of `fields` are the ones drawn from `head` and
/// the matched route template.
pub open spec fn describes_request(fields: SpanFields, head: RequestHead, route: Seq<char>) -> bool {
    &&& fields.method@ == head.method@
    &&& fields.flavor@ == flavor_of(head.version)
    &&& fields.user_agent@ == user_agent_of(head.user_agent)
    &&& fields.route@ == route
    &&& fields.target@ == target_of(head.path_and_query)
}

/// Relies on tracing's `Span::record`: sets the named field of the span to a
/// text value, rendered through `Display`.
#[verifier::external_body]
fn record_text(span: &tracing::Span, field: &str, value: &str) {
    span.record(field, tracing::field::display(value));
}

/// Relies on tracing's `Span::record`: sets the named field of the span to an
/// integer value.
#[verifier::external_body]
fn record_integer(span: &tracing::Span, field: &str, value: u16) {
    span.record(field, value);
}

/// Relies on pavex's `Response::status` and `StatusCode::as_u16`: the numeric
/// status code of the response, which the status type keeps within 100..=999.
#[verifier::external_body]
fn response_status(response: &pavex::response::Response) -> (r: u16)
    ensures
        100 <= r <= 999,
{
    response.status().as_u16()
}

/// A root span is the top-level *logical* span for an incoming request.
///
/// It is not necessarily the top-level *physical* span, as it may be a child of
/// another span (e.g. a span representing the underlying HTTP connection).
///
/// It carries as much information as possible about the incoming request, and
/// the final outcome of the request. Beside the tracing span it keeps the
/// values that were recorded on it.
#[derive(Debug)]
pub struct RootSpan {
    span: tracing::Span,
    fields: SpanFields,
}

impl RootSpan {
    /// The underlying tracing span.
    pub closed spec fn span_handle(&self) -> tracing::Span {
        self.span
    }

    /// The values recorded on the span so far.
    pub closed spec fn recorded(&self) -> SpanFields {
        self.fields
    }

    /// Create the root span for the given request, recording its request
    /// fields on `span`, which must declare them.
    ///
    /// The field names follow `OpenTelemetry`'s HTTP semantic conventions.
    pub fn new(span: tracing::Span, request_head: &RequestHead, matched_route: &str) -> (r: Self)
        ensures
            r.span_handle() == span,
            describes_request(r.recorded(), *request_head, matched_route@),
            r.recorded().status_code is None,
            request_head.user_agent is None ==> r.recorded().user_agent@.len() == 0,
    {
        let user_agent = user_agent(&request_head.user_agent);
        let target = match &request_head.path_and_query {
            Some(p) => p.clone(),
            None => String::new(),
        };
        let fields = SpanFields {
            method: request_head.method.clone(),
            flavor: http_flavor(&request_head.version),
            user_agent,
            route: matched_route.to_owned(),
            target,
            status_code: None,
        };
        record_text(&span, "http.method", fields.method.as_str());
        record_text(&span, "http.flavor", fields.flavor.as_str());
        record_text(&span, "user_agent.original", fields.user_agent.as_str());
        record_text(&span, "http.route", fields.route.as_str());
        record_text(&span, "http.target", fields.target.as_str());
        RootSpan { span, fields }
    }

    /// Record the status code of the response on the span. The field holds
    /// one value: a later record replaces an earlier one.
    pub fn record_status(&mut self, status_code: u16)
        ensures
            final(self).span_handle() == old(self).span_handle(),
            describes_request_unchanged(final(self).recorded(), old(self).recorded()),
            final(self).recorded().status_code == Some(status_code),
    {
        record_integer(&self.span, "http.response.status_code", status_code);
        self.fields.status_code = Some(status_code);
    }

    /// Record the response's status code on the span.
    pub fn record_response_data(&mut self, response: &pavex::response::Response)
        ensures
            final(self).span_handle() == old(self).span_handle(),
            describes_request_unchanged(final(self).recorded(), old(self).recorded()),
            final(self).recorded().status_code matches Some(code) && 100 <= code <= 999,
    {
        let status_code = response_status(response);
        self.record_status(status_code);
    }

    /// The values recorded on the span so far.
    pub fn fields(&self) -> (r: &SpanFields)
        ensures
            *r == self.recorded(),
    {
        &self.fields
    }

    /// Get a reference to the underlying tracing span.
    pub fn inner(&self) -> (r: &tracing::Span)
        ensures
            *r == self.span_handle(),
    {
        &self.span
    }

    /// Deconstruct the root span into its underlying tracing span.
    pub fn into_inner(self) -> (r: tracing::Span)
        ensures
            r == self.span_handle(),
    {
        self.span
    }
}

/// Whether two records carry the same request fields.
pub open spec fn describes_request_unchanged(after: SpanFields, before: SpanFields) -> bool {
    &&& after.method == before.method
    &&& after.flavor == before.flavor
    &&& after.user_agent == before.user_agent
    &&& after.route == before.route
    &&& after.target == before.target
}


/// The request fields of a root span come from its own request alone: spans
/// built from two requests carry each their own request's method, flavor,
/// user agent, route and target, whatever the other request holds, and the
/// status recorded on one span leaves the other's record unchanged.
pub proof fn lemma_spans_isolated(
    a: SpanFields,
    b: SpanFields,
    head_a: RequestHead,
    route_a: Seq<char>,
    head_b: RequestHead,
    route_b: Seq<char>,
)
    requires
        describes_request(a, head_a, route_a),
        describes_request(b, head_b, route_b),
    ensures
        a.method@ == head_a.method@ && b.method@ == head_b.method@,
        a.flavor@ == flavor_of(head_a.version) && b.flavor@ == flavor_of(head_b.version),
        a.user_agent@ == user_agent_of(head_a.user_agent) && b.user_agent@ == user_agent_of(
            head_b.user_agent,
        ),
        a.route@ == route_a && b.route@ == route_b,
        a.target@ == target_of(head_a.path_and_query) && b.target@ == target_of(
            head_b.path_and_query,
        ),
        forall|code: Option<u16>|
            describes_request(
                (SpanFields { status_code: code, ..a }),
                head_a,
                route_a,
            ),
{
}

/// A request without a `User-Agent` header gets the empty string as its user
/// agent, and one whose header does not read as text gets it as well.
pub proof fn lemma_missing_user_agent_is_empty(header: Option<Vec<u8>>)
    ensures
        header is None ==> user_agent_of(header).len() == 0,
        (header matches Some(bytes) && !is_header_text(bytes@)) ==> user_agent_of(header).len()
            == 0,
{
}

} // verus!
