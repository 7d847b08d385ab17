//! Request spans: the attribute schema filled from an inbound request, the
//! route and completion updates, and the one-shot lifecycle of a span.
use crate::config::opt_view;
use crate::context::TraceContext;
use crate::http_utils::{path_group, template};
use vstd::prelude::*;
use vstd::string::*;

verus! {

/// The HTTP protocol version of a request.
#[derive(Clone, Copy, Debug, PartialEq, Eq, Structural)]
pub enum HttpVersion {
    Http10,
    Http11,
    Http2,
    Http3,
    Other,
}

/// What a request span is built from: the parts of an inbound request that
/// the middleware reads, and the trace context its headers carried.
pub struct RequestMeta {
    /// The request method, such as `GET`.
    pub method: String,
    /// The path of the request URI.
    pub path: String,
    /// The host of the request URI, if it has one.
    pub uri_host: Option<String>,
    /// The scheme of the request URI, if it has one.
    pub scheme: Option<String>,
    pub version: HttpVersion,
    /// The `Host` header.
    pub host_header: Option<String>,
    /// The `User-Agent` header.
    pub user_agent: Option<String>,
    /// The `X-Forwarded-For` header.
    pub forwarded_for: Option<String>,
    /// The `X-Request-Id` header.
    pub request_id: Option<String>,
    /// The peer address of the connection.
    pub peer_ip: Option<String>,
    /// The route pattern the router matched, once routing has happened.
    pub matched_route: Option<String>,
    /// The trace context propagated in the request headers.
    pub parent: TraceContext,
}

pub ghost struct RequestView {
    pub method: Seq<char>,
    pub path: Seq<char>,
    pub uri_host: Option<Seq<char>>,
    pub scheme: Option<Seq<char>>,
    pub version: HttpVersion,
    pub host_header: Option<Seq<char>>,
    pub user_agent: Option<Seq<char>>,
    pub forwarded_for: Option<Seq<char>>,
    pub request_id: Option<Seq<char>>,
    pub peer_ip: Option<Seq<char>>,
    pub matched_route: Option<Seq<char>>,
    pub parent: TraceContext,
}

impl View for RequestMeta {
    type V = RequestView;

    open spec fn view(&self) -> RequestView {
        RequestView {
            method: self.method@,
            path: self.path@,
            uri_host: opt_view(self.uri_host),
            scheme: opt_view(self.scheme),
            version: self.version,
            host_header: opt_view(self.host_header),
            user_agent: opt_view(self.user_agent),
            forwarded_for: opt_view(self.forwarded_for),
            request_id: opt_view(self.request_id),
            peer_ip: opt_view(self.peer_ip),
            matched_route: opt_view(self.matched_route),
            parent: self.parent,
        }
    }
}

/// Attributes that a request span declares but leaves unset, for handlers
/// to record: a request id and the caller's authentication and identity.
pub struct ReservedFields {
    /// The request id slot, recorded by handlers.
    pub request_id: Option<String>,
    /// How the caller authenticated.
    pub auth_method: Option<String>,
    pub auth_user_uuid: Option<String>,
    pub auth_merchant_uuid: Option<String>,
    pub auth_account_uuid: Option<String>,
    pub auth_role: Option<String>,
    pub auth_api_version: Option<String>,
    /// Identity of the caller, for application security monitoring.
    pub usr_id: Option<String>,
    pub usr_email: Option<String>,
    pub usr_session_id: Option<String>,
    pub usr_role: Option<String>,
    pub usr_merchant: Option<String>,
    pub usr_account: Option<String>,
}

pub ghost struct ReservedView {
    pub request_id: Option<Seq<char>>,
    pub auth_method: Option<Seq<char>>,
    pub auth_user_uuid: Option<Seq<char>>,
    pub auth_merchant_uuid: Option<Seq<char>>,
    pub auth_account_uuid: Option<Seq<char>>,
    pub auth_role: Option<Seq<char>>,
    pub auth_api_version: Option<Seq<char>>,
    pub usr_id: Option<Seq<char>>,
    pub usr_email: Option<Seq<char>>,
    pub usr_session_id: Option<Seq<char>>,
    pub usr_role: Option<Seq<char>>,
    pub usr_merchant: Option<Seq<char>>,
    pub usr_account: Option<Seq<char>>,
}

impl View for ReservedFields {
    type V = ReservedView;

    open spec fn view(&self) -> ReservedView {
        ReservedView {
            request_id: opt_view(self.request_id),
            auth_method: opt_view(self.auth_method),
            auth_user_uuid: opt_view(self.auth_user_uuid),
            auth_merchant_uuid: opt_view(self.auth_merchant_uuid),
            auth_account_uuid: opt_view(self.auth_account_uuid),
            auth_role: opt_view(self.auth_role),
            auth_api_version: opt_view(self.auth_api_version),
            usr_id: opt_view(self.usr_id),
            usr_email: opt_view(self.usr_email),
            usr_session_id: opt_view(self.usr_session_id),
            usr_role: opt_view(self.usr_role),
            usr_merchant: opt_view(self.usr_merchant),
            usr_account: opt_view(self.usr_account),
        }
    }
}

/// Every reserved attribute unset.
pub open spec fn unset_reserved() -> ReservedView {
    ReservedView {
        request_id: None,
        auth_method: None,
        auth_user_uuid: None,
        auth_merchant_uuid: None,
        auth_account_uuid: None,
        auth_role: None,
        auth_api_version: None,
        usr_id: None,
        usr_email: None,
        usr_session_id: None,
        usr_role: None,
        usr_merchant: None,
        usr_account: None,
    }
}

impl ReservedFields {
    /// Every reserved attribute unset.
    pub fn unset() -> (r: Self)
        ensures
            r@ == unset_reserved(),
    {
        ReservedFields {
            request_id: None,
            auth_method: None,
            auth_user_uuid: None,
            auth_merchant_uuid: None,
            auth_account_uuid: None,
            auth_role: None,
            auth_api_version: None,
            usr_id: None,
            usr_email: None,
            usr_session_id: None,
            usr_role: None,
            usr_merchant: None,
            usr_account: None,
        }
    }
}

/// The attributes of a request span. `None` marks a field that is reserved
/// but not (yet) recorded.
pub struct SpanFields {
    /// The span's name, `HTTP request`.
    pub name: String,
    /// The operation name, `axum.request`.
    pub operation: String,
    /// Method and route template, such as `GET /merchants/?`.
    pub resource: String,
    pub method: String,
    /// The request path.
    pub url: String,
    /// The `Host` header, or else the host of the request URI.
    pub base_url: Option<String>,
    pub useragent: Option<String>,
    /// The route pattern the router matched.
    pub route: Option<String>,
    /// The `X-Forwarded-For` header, or else the peer address.
    pub client_ip: Option<String>,
    pub request_id: Option<String>,
    /// The response status code.
    pub status_code: Option<u16>,
    /// `1.0`, `1.1`, `2.0`, `3.0`, or empty for another version.
    pub protocol_version: String,
    pub server_address: Option<String>,
    pub scheme: Option<String>,
    /// The propagated trace this span continues; `None` starts a new trace.
    pub parent: Option<TraceContext>,
    /// `ERROR` once the handler failed.
    pub otel_status_code: Option<String>,
    /// The description of the handler's error.
    pub error_type: Option<String>,
    /// The description of the underlying cause of the handler's error.
    pub error_message: Option<String>,
    /// The span kind, `server`.
    pub kind: String,
    /// The span type, `web`.
    pub span_type: String,
    pub reserved: ReservedFields,
}

pub ghost struct SpanView {
    pub name: Seq<char>,
    pub operation: Seq<char>,
    pub resource: Seq<char>,
    pub method: Seq<char>,
    pub url: Seq<char>,
    pub base_url: Option<Seq<char>>,
    pub useragent: Option<Seq<char>>,
    pub route: Option<Seq<char>>,
    pub client_ip: Option<Seq<char>>,
    pub request_id: Option<Seq<char>>,
    pub status_code: Option<u16>,
    pub protocol_version: Seq<char>,
    pub server_address: Option<Seq<char>>,
    pub scheme: Option<Seq<char>>,
    pub parent: Option<TraceContext>,
    pub otel_status_code: Option<Seq<char>>,
    pub error_type: Option<Seq<char>>,
    pub error_message: Option<Seq<char>>,
    pub kind: Seq<char>,
    pub span_type: Seq<char>,
    pub reserved: ReservedView,
}

impl View for SpanFields {
    type V = SpanView;

    open spec fn view(&self) -> SpanView {
        SpanView {
            name: self.name@,
            operation: self.operation@,
            resource: self.resource@,
            method: self.method@,
            url: self.url@,
            base_url: opt_view(self.base_url),
            useragent: opt_view(self.useragent),
            route: opt_view(self.route),
            client_ip: opt_view(self.client_ip),
            request_id: opt_view(self.request_id),
            status_code: self.status_code,
            protocol_version: self.protocol_version@,
            server_address: opt_view(self.server_address),
            scheme: opt_view(self.scheme),
            parent: self.parent,
            otel_status_code: opt_view(self.otel_status_code),
            error_type: opt_view(self.error_type),
            error_message: opt_view(self.error_message),
            kind: self.kind@,
            span_type: self.span_type@,
            reserved: self.reserved@,
        }
    }
}

/// How the wrapped handler finished.
pub enum Outcome {
    /// It produced a response with this status code.
    Response { status: u16 },
    /// It failed: the error's description and, if it has one, its cause's.
    Failure { description: String, cause: Option<String> },
}

pub ghost enum OutcomeView {
    Response { status: u16 },
    Failure { description: Seq<char>, cause: Option<Seq<char>> },
}

impl View for Outcome {
    type V = OutcomeView;

    open spec fn view(&self) -> OutcomeView {
        match self {
            Outcome::Response { status } => OutcomeView::Response { status: *status },
            Outcome::Failure { description, cause } => OutcomeView::Failure {
                description: description@,
                cause: opt_view(*cause),
            },
        }
    }
}

/// The first of two optional values that is present.
pub open spec fn either(a: Option<Seq<char>>, b: Option<Seq<char>>) -> Option<Seq<char>> {
    if a is Some {
        a
    } else {
        b
    }
}

/// The label of a protocol version.
pub open spec fn protocol_label(v: HttpVersion) -> Seq<char> {
    match v {
        HttpVersion::Http10 => "1.0"@,
        HttpVersion::Http11 => "1.1"@,
        HttpVersion::Http2 => "2.0"@,
        HttpVersion::Http3 => "3.0"@,
        HttpVersion::Other => ""@,
    }
}

/// The parent of a span: none where the propagated context is empty.
pub open spec fn parent_of(ctx: TraceContext) -> Option<TraceContext> {
    if ctx.is_empty() {
        None
    } else {
        Some(ctx)
    }
}

/// The span made for a request before its route is known.
pub open spec fn span_for_request(req: RequestView) -> SpanView {
    SpanView {
        name: "HTTP request"@,
        operation: "axum.request"@,
        resource: req.method + " "@ + template(req.path),
        method: req.method,
        url: req.path,
        base_url: either(req.host_header, req.uri_host),
        useragent: req.user_agent,
        route: None,
        client_ip: either(req.forwarded_for, req.peer_ip),
        request_id: req.request_id,
        status_code: None,
        protocol_version: protocol_label(req.version),
        server_address: req.uri_host,
        scheme: req.scheme,
        parent: parent_of(req.parent),
        otel_status_code: None,
        error_type: None,
        error_message: None,
        kind: "server"@,
        span_type: "web"@,
        reserved: unset_reserved(),
    }
}

/// A character of the Unicode `White_Space` property.
pub open spec fn is_unicode_whitespace(c: char) -> bool {
    ('\u{9}' <= c && c <= '\u{d}') || c == ' ' || c == '\u{85}' || c == '\u{a0}' || c
        == '\u{1680}' || ('\u{2000}' <= c && c <= '\u{200a}') || c == '\u{2028}' || c
        == '\u{2029}' || c == '\u{202f}' || c == '\u{205f}' || c == '\u{3000}'
}

/// `s` without its leading whitespace.
pub open spec fn trim_start(s: Seq<char>) -> Seq<char>
    decreases s.len(),
{
    if s.len() > 0 && is_unicode_whitespace(s[0]) {
        trim_start(s.drop_first())
    } else {
        s
    }
}

/// `s` without its trailing whitespace.
pub open spec fn trim_end(s: Seq<char>) -> Seq<char>
    decreases s.len(),
{
    if s.len() > 0 && is_unicode_whitespace(s.last()) {
        trim_end(s.drop_last())
    } else {
        s
    }
}

/// `s` without leading and trailing whitespace.
pub open spec fn trimmed(s: Seq<char>) -> Seq<char> {
    trim_end(trim_start(s))
}

/// The matched route of a request, empty where there is none.
pub open spec fn route_of(req: RequestView) -> Seq<char> {
    match req.matched_route {
        Some(r) => r,
        None => Seq::empty(),
    }
}

/// A span once the router's match is known: a non-empty route replaces the
/// templated path in the resource name and is recorded as the route.
pub open spec fn with_route(span: SpanView, method: Seq<char>, route: Seq<char>) -> SpanView {
    if route.len() == 0 {
        span
    } else {
        SpanView { resource: trimmed(method + " "@ + route), route: Some(route), ..span }
    }
}

/// The span that is opened for a request.
pub open spec fn opened_span(req: RequestView) -> SpanView {
    with_route(span_for_request(req), req.method, route_of(req))
}

/// A span once the handler finished with the given outcome.
pub open spec fn completed(span: SpanView, outcome: OutcomeView) -> SpanView {
    match outcome {
        OutcomeView::Response { status } => SpanView { status_code: Some(status), ..span },
        OutcomeView::Failure { description, cause } => SpanView {
            otel_status_code: Some("ERROR"@),
            error_type: Some(description),
            error_message: if cause is Some {
                cause
            } else {
                span.error_message
            },
            ..span
        },
    }
}

/// Relies on `str::trim`: it removes leading and trailing characters of the
/// Unicode `White_Space` property.
#[verifier::external_body]
fn trim(s: &str) -> (r: &str)
    ensures
        r@ == trimmed(s@),
{
    s.trim()
}

fn clone_opt(o: &Option<String>) -> (r: Option<String>)
    ensures
        opt_view(r) == opt_view(*o),
{
    match o {
        Some(s) => Some(s.clone()),
        None => None,
    }
}

fn first_present(a: &Option<String>, b: &Option<String>) -> (r: Option<String>)
    ensures
        opt_view(r) == either(opt_view(*a), opt_view(*b)),
{
    match a {
        Some(s) => Some(s.clone()),
        None => clone_opt(b),
    }
}

fn protocol_version_label(v: HttpVersion) -> (r: String)
    ensures
        r@ == protocol_label(v),
{
    match v {
        HttpVersion::Http10 => String::from_str("1.0"),
        HttpVersion::Http11 => String::from_str("1.1"),
        HttpVersion::Http2 => String::from_str("2.0"),
        HttpVersion::Http3 => String::from_str("3.0"),
        HttpVersion::Other => String::from_str(""),
    }
}

/// Builds the span for a request: resource `"{method} {template}"` from the
/// templated path, the HTTP attributes read from the request, the route,
/// status and error fields left unset, and the propagated trace as parent.
pub fn make_span_from_request(req: &RequestMeta) -> (r: SpanFields)
    ensures
        r@ == span_for_request(req@),
{
    let mut resource = String::from_str(req.method.as_str());
    resource.append(" ");
    let group = path_group(req.path.as_str());
    resource.append(group.as_str());
    let parent = if req.parent.is_empty() {
        None
    } else {
        Some(req.parent)
    };
    SpanFields {
        name: String::from_str("HTTP request"),
        operation: String::from_str("axum.request"),
        resource,
        method: req.method.clone(),
        url: req.path.clone(),
        base_url: first_present(&req.host_header, &req.uri_host),
        useragent: clone_opt(&req.user_agent),
        route: None,
        client_ip: first_present(&req.forwarded_for, &req.peer_ip),
        request_id: clone_opt(&req.request_id),
        status_code: None,
        protocol_version: protocol_version_label(req.version),
        server_address: clone_opt(&req.uri_host),
        scheme: clone_opt(&req.scheme),
        parent,
        otel_status_code: None,
        error_type: None,
        error_message: None,
        kind: String::from_str("server"),
        span_type: String::from_str("web"),
        reserved: ReservedFields::unset(),
    }
}

/// Returns the route that matched a request, or an empty string.
pub fn http_route(req: &RequestMeta) -> (r: &str)
    ensures
        r@ == route_of(req@),
{
    match &req.matched_route {
        Some(route) => route.as_str(),
        None => {
            proof {
                reveal_strlit("");
            }
            ""
        },
    }
}

/// Records the matched route on a span: where `route` is not empty, the
/// resource becomes `"{method} {route}"` (trimmed) and the route is set.
pub fn record_route(span: &mut SpanFields, method: &str, route: &str)
    ensures
        final(span)@ == with_route(old(span)@, method@, route@),
{
    if route.unicode_len() > 0 {
        let mut resource = String::from_str(method);
        resource.append(" ");
        resource.append(route);
        span.resource = String::from_str(trim(resource.as_str()));
        span.route = Some(String::from_str(route));
    }
}

/// Records the response's status code on a span.
pub fn update_span_from_response(span: &mut SpanFields, status: u16)
    ensures
        final(span)@ == completed(old(span)@, OutcomeView::Response { status }),
{
    span.status_code = Some(status);
}

/// Records a handler error on a span: the status becomes `ERROR`, the
/// error's description its type, and its cause's description, if any, its
/// message.
pub fn update_span_from_error(span: &mut SpanFields, description: String, cause: Option<String>)
    ensures
        final(span)@ == completed(
            old(span)@,
            OutcomeView::Failure { description: description@, cause: opt_view(cause) },
        ),
{
    span.otel_status_code = Some(String::from_str("ERROR"));
    span.error_type = Some(description);
    if let Some(c) = cause {
        span.error_message = Some(c);
    }
}

/// Records how the handler finished, whichever way that was.
pub fn update_span_from_response_or_error(span: &mut SpanFields, outcome: Outcome)
    ensures
        final(span)@ == completed(old(span)@, outcome@),
{
    match outcome {
        Outcome::Response { status } => update_span_from_response(span, status),
        Outcome::Failure { description, cause } => update_span_from_error(
            span,
            description,
            cause,
        ),
    }
}

/// Where a request span stands: not yet opened, open while the handler
/// runs, or finalized once the handler finished.
#[derive(Clone, Copy, Debug, PartialEq, Eq, Structural)]
pub enum Phase {
    Idle,
    Active,
    Finalized,
}

/// What happens to a request span.
pub enum Event {
    /// The request arrived.
    Request(RequestMeta),
    /// The wrapped handler finished.
    Completed(Outcome),
}

pub ghost enum EventView {
    Request(RequestView),
    Completed(OutcomeView),
}

impl View for Event {
    type V = EventView;

    open spec fn view(&self) -> EventView {
        match self {
            Event::Request(req) => EventView::Request(req@),
            Event::Completed(outcome) => EventView::Completed(outcome@),
        }
    }
}

/// What the caller does with the tracing backend after an event.
#[derive(Clone, Copy, Debug, PartialEq, Eq, Structural)]
pub enum Action {
    /// Create the span with the current attributes and make it current for
    /// the handler.
    Open,
    /// Record the completion attributes on the span and close it.
    Close,
    /// Nothing: the event does not apply in this phase.
    Ignore,
}

pub ghost struct LifecycleView {
    pub phase: Phase,
    pub span: Option<SpanView>,
    pub finalizations: nat,
}

/// The lifecycle of one request's span. A span is opened once and finalized
/// once: the completion of the handler is the single point where the
/// outcome is recorded, whichever way the handler finished.
pub struct SpanLifecycle {
    phase: Phase,
    span: Option<SpanFields>,
    finalizations: u64,
}

/// The lifecycle before any event.
pub open spec fn idle() -> LifecycleView {
    LifecycleView { phase: Phase::Idle, span: None, finalizations: 0 }
}

/// A span exists once opened, and it has been finalized once exactly when
/// its phase is `Finalized`.
pub open spec fn lifecycle_wf(s: LifecycleView) -> bool {
    &&& (s.phase == Phase::Idle <==> s.span is None)
    &&& s.finalizations == if s.phase == Phase::Finalized {
        1nat
    } else {
        0nat
    }
}

/// The next state and the action for an event: a request opens an idle
/// span; the handler's completion finalizes an active one; any other event
/// changes nothing.
pub open spec fn next(s: LifecycleView, event: EventView) -> (LifecycleView, Action) {
    match event {
        EventView::Request(req) => if s.phase == Phase::Idle {
            (
                LifecycleView {
                    phase: Phase::Active,
                    span: Some(opened_span(req)),
                    finalizations: s.finalizations,
                },
                Action::Open,
            )
        } else {
            (s, Action::Ignore)
        },
        EventView::Completed(outcome) => if s.phase == Phase::Active && s.span is Some {
            (
                LifecycleView {
                    phase: Phase::Finalized,
                    span: Some(completed(s.span->0, outcome)),
                    finalizations: s.finalizations + 1,
                },
                Action::Close,
            )
        } else {
            (s, Action::Ignore)
        },
    }
}

/// The state after a sequence of events.
pub open spec fn run(s: LifecycleView, events: Seq<EventView>) -> LifecycleView
    decreases events.len(),
{
    if events.len() == 0 {
        s
    } else {
        run(next(s, events[0]).0, events.drop_first())
    }
}

impl View for SpanLifecycle {
    type V = LifecycleView;

    closed spec fn view(&self) -> LifecycleView {
        LifecycleView {
            phase: self.phase,
            span: match self.span {
                Some(f) => Some(f@),
                None => None,
            },
            finalizations: self.finalizations as nat,
        }
    }
}

impl SpanLifecycle {
    /// The lifecycle's invariant, established by `new` and kept by `step`.
    pub closed spec fn wf(&self) -> bool {
        lifecycle_wf(self@)
    }

    /// A lifecycle waiting for its request.
    pub fn new() -> (r: Self)
        ensures
            r@ == idle(),
            r.wf(),
    {
        SpanLifecycle { phase: Phase::Idle, span: None, finalizations: 0 }
    }

    pub fn phase(&self) -> (r: Phase)
        ensures
            r == self@.phase,
    {
        self.phase
    }

    /// How many times the span has been finalized.
    pub fn finalizations(&self) -> (r: u64)
        ensures
            r == self@.finalizations,
    {
        self.finalizations
    }

    /// The span's attributes, once it has been opened.
    pub fn span(&self) -> (r: Option<&SpanFields>)
        ensures
            match r {
                Some(f) => self@.span == Some(f@),
                None => self@.span is None,
            },
    {
        match &self.span {
            Some(f) => Some(f),
            None => None,
        }
    }

    /// Takes one event: a request opens the span, built from the request and
    /// updated with its matched route; the handler's completion records the
    /// outcome and finalizes it. Events that do not apply are ignored.
    pub fn step(&mut self, event: Event) -> (r: Action)
        requires
            old(self).wf(),
        ensures
            final(self).wf(),
            final(self)@ == next(old(self)@, event@).0,
            r == next(old(self)@, event@).1,
    {
        match event {
            Event::Request(req) => {
                if self.phase == Phase::Idle {
                    let mut span = make_span_from_request(&req);
                    record_route(&mut span, req.method.as_str(), http_route(&req));
                    self.span = Some(span);
                    self.phase = Phase::Active;
                    Action::Open
                } else {
                    Action::Ignore
                }
            },
            Event::Completed(outcome) => {
                if self.phase == Phase::Active {
                    match self.span.take() {
                        Some(mut span) => {
                            update_span_from_response_or_error(&mut span, outcome);
                            self.span = Some(span);
                            self.phase = Phase::Finalized;
                            self.finalizations = self.finalizations + 1;
                            Action::Close
                        },
                        None => Action::Ignore,
                    }
                } else {
                    Action::Ignore
                }
            },
        }
    }

    /// Finalizes the span with the outcome of the handler and hands the
    /// handler's result back unchanged; `outcome` describes that result.
    pub fn complete<T, E>(&mut self, result: Result<T, E>, outcome: Outcome) -> (r: Result<T, E>)
        requires
            old(self).wf(),
            (result is Ok) == (outcome@ is Response),
        ensures
            final(self).wf(),
            r == result,
            final(self)@ == next(old(self)@, EventView::Completed(outcome@)).0,
    {
        self.step(Event::Completed(outcome));
        result
    }

    /// Finalizes a span whose handler was cancelled before it finished: the
    /// cancellation is recorded as a failure, so that no span stays open.
    /// A span that is not active is left as it is.
    pub fn cancel(&mut self) -> (r: Action)
        requires
            old(self).wf(),
        ensures
            final(self).wf(),
            final(self)@ == next(old(self)@, EventView::Completed(cancelled())).0,
            r == next(old(self)@, EventView::Completed(cancelled())).1,
    {
        let outcome = Outcome::Failure {
            description: String::from_str("request cancelled"),
            cause: None,
        };
        self.step(Event::Completed(outcome))
    }
}

/// The outcome recorded for a cancelled handler.
pub open spec fn cancelled() -> OutcomeView {
    OutcomeView::Failure { description: "request cancelled"@, cause: None }
}

/// Every state reached from the idle one is well formed: in particular a
/// span is never finalized more than once, whatever events arrive.
pub proof fn lemma_never_finalized_twice(events: Seq<EventView>)
    ensures
        lifecycle_wf(run(idle(), events)),
        run(idle(), events).finalizations <= 1,
{
    lemma_run_wf(idle(), events);
}

proof fn lemma_run_wf(s: LifecycleView, events: Seq<EventView>)
    requires
        lifecycle_wf(s),
    ensures
        lifecycle_wf(run(s, events)),
    decreases events.len(),
{
    if events.len() > 0 {
        lemma_run_wf(next(s, events[0]).0, events.drop_first());
    }
}

proof fn lemma_run_finalized(s: LifecycleView, events: Seq<EventView>)
    requires
        lifecycle_wf(s),
        s.phase == Phase::Finalized,
    ensures
        run(s, events) == s,
    decreases events.len(),
{
    if events.len() > 0 {
        lemma_run_finalized(next(s, events[0]).0, events.drop_first());
    }
}

/// Running two events and then more is running the two, then the rest.
proof fn lemma_run_two(s: LifecycleView, a: EventView, b: EventView, later: Seq<EventView>)
    ensures
        run(s, seq![a, b] + later) == run(next(next(s, a).0, b).0, later),
{
    let all = seq![a, b] + later;
    let s1 = next(s, a).0;
    assert(all[0] == a);
    let t = all.drop_first();
    assert(t =~= seq![b] + later);
    assert(t[0] == b);
    assert(t.drop_first() =~= later);
    assert(run(s, all) == run(s1, t));
    assert(run(s1, t) == run(next(s1, b).0, later));
}

/// Exactly one finalization per span: once a request has opened the span
/// and the handler has finished, successfully or not, the span has been
/// finalized once, and no later event changes it.
pub proof fn lemma_finalized_exactly_once(
    req: RequestView,
    outcome: OutcomeView,
    later: Seq<EventView>,
)
    ensures
        run(idle(), seq![EventView::Request(req), EventView::Completed(outcome)] + later)
            == run(idle(), seq![EventView::Request(req), EventView::Completed(outcome)]),
        run(idle(), seq![EventView::Request(req), EventView::Completed(outcome)]).phase
            == Phase::Finalized,
        run(idle(), seq![EventView::Request(req), EventView::Completed(outcome)]).finalizations
            == 1,
{
    let a = EventView::Request(req);
    let b = EventView::Completed(outcome);
    let s2 = next(next(idle(), a).0, b).0;
    lemma_run_two(idle(), a, b, later);
    lemma_run_two(idle(), a, b, Seq::empty());
    assert(seq![a, b] + Seq::<EventView>::empty() =~= seq![a, b]);
    lemma_run_finalized(s2, later);
}

/// On success the span records the response's own status code.
pub proof fn lemma_success_records_status(req: RequestView, status: u16)
    ensures
        run(
            idle(),
            seq![EventView::Request(req), EventView::Completed(OutcomeView::Response { status })],
        ).span == Some(
            SpanView { status_code: Some(status), ..opened_span(req) },
        ),
{
    let a = EventView::Request(req);
    let b = EventView::Completed(OutcomeView::Response { status });
    lemma_run_two(idle(), a, b, Seq::empty());
    assert(seq![a, b] + Seq::<EventView>::empty() =~= seq![a, b]);
}

/// On failure the span is marked as an error and carries the error's
/// description, and its cause's where there is one.
pub proof fn lemma_failure_records_error(
    req: RequestView,
    description: Seq<char>,
    cause: Option<Seq<char>>,
)
    ensures
        ({
            let span = run(
                idle(),
                seq![
                    EventView::Request(req),
                    EventView::Completed(OutcomeView::Failure { description, cause }),
                ],
            ).span->0;
            &&& span.otel_status_code == Some("ERROR"@)
            &&& span.error_type == Some(description)
            &&& span.error_message == cause
            &&& span.status_code is None
        }),
{
    let a = EventView::Request(req);
    let b = EventView::Completed(OutcomeView::Failure { description, cause });
    lemma_run_two(idle(), a, b, Seq::empty());
    assert(seq![a, b] + Seq::<EventView>::empty() =~= seq![a, b]);
}

} // verus!
