//! Distributed trace context and its propagation through HTTP headers.
use tracing_datadog::context::{DatadogContext, TraceContextExt, TracingContextExt};
use tracing_datadog::http::{DatadogHeaders, W3CTraceContextHeaders};
use vstd::prelude::*;
use vstd::string::*;

verus! {

/// The identifiers that continue a trace across a network hop.
#[derive(Clone, Copy, Debug, PartialEq, Eq, Structural)]
pub struct TraceContext {
    pub trace_id: u128,
    pub parent_id: u64,
}

impl TraceContext {
    /// A context that names no trace: one of its identifiers is zero.
    pub open spec fn spec_is_empty(&self) -> bool {
        self.trace_id == 0 || self.parent_id == 0
    }

    /// Whether the context names no trace.
    #[verifier::when_used_as_spec(spec_is_empty)]
    pub fn is_empty(&self) -> (r: bool)
        ensures
            r == self.spec_is_empty(),
    {
        self.trace_id == 0 || self.parent_id == 0
    }
}

#[verifier::external_type_specification]
#[verifier::external_body]
#[verifier::reject_recursive_types(T)]
pub struct ExHeaderMap<T>(http::HeaderMap<T>);

#[verifier::external_type_specification]
#[verifier::external_body]
pub struct ExHeaderValue(http::HeaderValue);

#[verifier::external_type_specification]
#[verifier::external_body]
pub struct ExSpan(tracing::Span);

/// The contents of a header map: for each (lower-case) header name, its
/// values in order.
pub uninterp spec fn header_entries(h: http::HeaderMap) -> Map<Seq<char>, Seq<Seq<u8>>>;

/// The (trace id, parent id) that tracing-datadog reads from headers in the
/// W3C format.
pub uninterp spec fn w3c_context_of(entries: Map<Seq<char>, Seq<Seq<u8>>>) -> (u128, u64);

/// The (trace id, parent id) that tracing-datadog reads from headers in the
/// Datadog format.
pub uninterp spec fn datadog_context_of(entries: Map<Seq<char>, Seq<Seq<u8>>>) -> (u128, u64);

/// A context from a (trace id, parent id) pair.
pub open spec fn ctx_of(ids: (u128, u64)) -> TraceContext {
    TraceContext { trace_id: ids.0, parent_id: ids.1 }
}

/// The first value of a header, as `HeaderMap::get` returns it.
pub open spec fn first_value(entries: Map<Seq<char>, Seq<Seq<u8>>>, name: Seq<char>) -> Option<
    Seq<u8>,
> {
    if entries.contains_key(name) && entries[name].len() > 0 {
        Some(entries[name][0])
    } else {
        None
    }
}

/// The ASCII code of a lower-case hexadecimal digit.
pub open spec fn hex_digit(d: nat) -> u8 {
    if d < 10 {
        (48 + d) as u8
    } else {
        (87 + d) as u8
    }
}

/// `n` in lower-case hexadecimal, padded with zeros to `width` digits (the
/// last `width` digits where it has more).
pub open spec fn hex_fixed(n: nat, width: nat) -> Seq<u8>
    decreases width,
{
    if width == 0 {
        Seq::empty()
    } else {
        hex_fixed(n / 16, (width - 1) as nat).push(hex_digit(n % 16))
    }
}

/// `n` in decimal, without leading zeros.
pub open spec fn decimal(n: nat) -> Seq<u8>
    decreases n,
{
    if n < 10 {
        seq![(48 + n) as u8]
    } else {
        decimal(n / 10).push((48 + n % 10) as u8)
    }
}

/// The ASCII bytes of a string of ASCII characters.
pub open spec fn ascii(s: Seq<char>) -> Seq<u8> {
    s.map_values(|c: char| c as u8)
}

/// A W3C `traceparent` value of version `00` with the given flags:
/// `00-{trace id: 32 hex digits}-{parent id: 16 hex digits}-{flags}`.
pub open spec fn traceparent_value(trace_id: u128, parent_id: u64, flags: Seq<char>) -> Seq<u8> {
    ascii("00-"@) + hex_fixed(trace_id as nat, 32) + ascii("-"@) + hex_fixed(parent_id as nat, 16)
        + ascii("-"@) + ascii(flags)
}

/// The lower 64 bits of a trace id.
pub open spec fn low_bits(trace_id: u128) -> nat {
    trace_id as nat % 0x1_0000_0000_0000_0000
}

/// The upper 64 bits of a trace id.
pub open spec fn high_bits(trace_id: u128) -> nat {
    trace_id as nat / 0x1_0000_0000_0000_0000
}

/// The `x-datadog-tags` value that carries the upper bits of a trace id.
pub open spec fn datadog_tags_value(trace_id: u128) -> Seq<u8> {
    ascii("_dd.p.tid="@) + hex_fixed(high_bits(trace_id), 16)
}

/// Headers after the W3C format of a context is written: `traceparent`
/// replaced by one sampled value.
pub open spec fn with_w3c_headers(entries: Map<Seq<char>, Seq<Seq<u8>>>, ctx: TraceContext) -> Map<
    Seq<char>,
    Seq<Seq<u8>>,
> {
    entries.insert("traceparent"@, seq![traceparent_value(ctx.trace_id, ctx.parent_id, "01"@)])
}

/// Headers after the Datadog format of a context is written: the four
/// `x-datadog-*` headers replaced by one value each.
pub open spec fn with_datadog_headers(
    entries: Map<Seq<char>, Seq<Seq<u8>>>,
    ctx: TraceContext,
) -> Map<Seq<char>, Seq<Seq<u8>>> {
    entries.insert("x-datadog-trace-id"@, seq![decimal(low_bits(ctx.trace_id))]).insert(
        "x-datadog-parent-id"@,
        seq![decimal(ctx.parent_id as nat)],
    ).insert("x-datadog-sampling-priority"@, seq![ascii("1"@)]).insert(
        "x-datadog-tags"@,
        seq![datadog_tags_value(ctx.trace_id)],
    )
}

/// Headers after a context is written in both formats.
pub open spec fn with_trace_headers(entries: Map<Seq<char>, Seq<Seq<u8>>>, ctx: TraceContext) -> Map<
    Seq<char>,
    Seq<Seq<u8>>,
> {
    with_datadog_headers(with_w3c_headers(entries, ctx), ctx)
}

/// The header names that trace propagation writes.
pub open spec fn is_trace_header(name: Seq<char>) -> bool {
    name == "traceparent"@ || name == "x-datadog-trace-id"@ || name == "x-datadog-parent-id"@
        || name == "x-datadog-sampling-priority"@ || name == "x-datadog-tags"@
}

/// Whether a byte string holds a `-`.
pub open spec fn has_dash(v: Seq<u8>) -> bool {
    exists|i: int| 0 <= i < v.len() && v[i] == 45u8
}

/// The most distinct header names a map may hold for trace headers to be
/// written into it: a header map cannot grow past about 6,550 names when
/// their hashes collide.
pub const HEADER_NAME_LIMIT: usize = 6500;

/// Relies on `tracing::Span::current`: the span that is current here, which
/// depends on the ambient tracing state alone.
pub assume_specification[ tracing::Span::current ]() -> tracing::Span;

/// Relies on http's `HeaderMap::keys_len`: the number of distinct header
/// names in the map.
#[verifier::external_body]
fn header_name_count(headers: &http::HeaderMap) -> (r: usize)
    ensures
        r == header_entries(*headers).dom().len(),
{
    headers.keys_len()
}

/// Relies on tracing-datadog's `W3CTraceContextHeaders::extract`, reached
/// through `TraceContextExt::extract_trace_context`: it reads the first
/// `traceparent` value and never panics. A missing header, a value that is
/// not four `-`-separated parts, or an unsampled one (flags `00`) gives the
/// empty context; a version-`00` value in canonical hexadecimal with flags
/// `01` gives its ids.
#[verifier::external_body]
fn extract_w3c(headers: &http::HeaderMap) -> (r: TraceContext)
    ensures
        r == ctx_of(w3c_context_of(header_entries(*headers))),
        first_value(header_entries(*headers), "traceparent"@) is None ==> r.trace_id == 0
            && r.parent_id == 0,
        forall|v: Seq<u8>|
            first_value(header_entries(*headers), "traceparent"@) == Some(v) && !has_dash(v)
                ==> r.trace_id == 0 && r.parent_id == 0,
        forall|t: u128, p: u64|
            first_value(header_entries(*headers), "traceparent"@) == Some(
                traceparent_value(t, p, "00"@),
            ) ==> r.trace_id == 0 && r.parent_id == 0,
        forall|t: u128, p: u64|
            first_value(header_entries(*headers), "traceparent"@) == Some(
                traceparent_value(t, p, "01"@),
            ) ==> r.trace_id == t && r.parent_id == p,
{
    let c = headers.extract_trace_context::<W3CTraceContextHeaders>();
    TraceContext { trace_id: c.trace_id, parent_id: c.parent_id }
}

/// Relies on tracing-datadog's `W3CTraceContextHeaders::inject`, reached
/// through `TraceContextExt::inject_trace_context`: for a non-empty context
/// it calls `HeaderMap::insert` once, which replaces every `traceparent`
/// value by the one written. That insert panics only where the map holds
/// about 6,554 or more distinct names, which `requires` leaves out.
#[verifier::external_body]
fn inject_w3c(headers: &mut http::HeaderMap, ctx: TraceContext)
    requires
        !ctx.is_empty(),
        header_entries(*old(headers)).dom().len() < 6550,
    ensures
        header_entries(*final(headers)) == with_w3c_headers(header_entries(*old(headers)), ctx),
        header_entries(*final(headers)).dom().len() <= header_entries(*old(headers)).dom().len()
            + 1,
{
    let c = DatadogContext { trace_id: ctx.trace_id, parent_id: ctx.parent_id };
    headers.inject_trace_context::<W3CTraceContextHeaders>(c)
}

/// Relies on tracing-datadog's `DatadogHeaders::extract`, reached through
/// `TraceContextExt::extract_trace_context`: it never panics. A missing
/// `x-datadog-sampling-priority` header gives the empty context; the four
/// values that `DatadogHeaders::inject` writes give back the ids written.
#[verifier::external_body]
fn extract_datadog(headers: &http::HeaderMap) -> (r: TraceContext)
    ensures
        r == ctx_of(datadog_context_of(header_entries(*headers))),
        first_value(header_entries(*headers), "x-datadog-sampling-priority"@) is None
            ==> r.trace_id == 0 && r.parent_id == 0,
        forall|t: u128, p: u64|
            #![trigger decimal(low_bits(t)), decimal(p as nat)]
            {
                let e = header_entries(*headers);
                &&& first_value(e, "x-datadog-trace-id"@) == Some(decimal(low_bits(t)))
                &&& first_value(e, "x-datadog-parent-id"@) == Some(decimal(p as nat))
                &&& first_value(e, "x-datadog-sampling-priority"@) == Some(ascii("1"@))
                &&& first_value(e, "x-datadog-tags"@) == Some(datadog_tags_value(t))
            } ==> r.trace_id == t && r.parent_id == p,
{
    let c = headers.extract_trace_context::<DatadogHeaders>();
    TraceContext { trace_id: c.trace_id, parent_id: c.parent_id }
}

/// Relies on tracing-datadog's `DatadogHeaders::inject`, reached through
/// `TraceContextExt::inject_trace_context`: for a non-empty context it calls
/// `HeaderMap::insert` four times, each replacing every value of its name:
/// the decimal lower 64 bits of the trace id, the decimal parent id,
/// sampling priority `1`, and the upper 64 bits as `_dd.p.tid=` and 16 hex
/// digits. Each insert adds at most one name, so the map stays below the
/// size at which it panics.
#[verifier::external_body]
fn inject_datadog(headers: &mut http::HeaderMap, ctx: TraceContext)
    requires
        !ctx.is_empty(),
        header_entries(*old(headers)).dom().len() < 6550,
    ensures
        header_entries(*final(headers)) == with_datadog_headers(
            header_entries(*old(headers)),
            ctx,
        ),
{
    let c = DatadogContext { trace_id: ctx.trace_id, parent_id: ctx.parent_id };
    headers.inject_trace_context::<DatadogHeaders>(c)
}

/// Relies on tracing-datadog's `TracingContextExt::get_context`: the trace
/// of a span, which is the empty context where the span is disabled or not
/// recorded by the Datadog layer.
#[verifier::external_body]
fn span_context(span: &tracing::Span) -> (r: TraceContext) {
    let c = span.get_context();
    TraceContext { trace_id: c.trace_id, parent_id: c.parent_id }
}

/// The richer of the contexts read in the W3C and in the Datadog format:
/// the W3C one where it names a trace, else the Datadog one.
pub open spec fn richer(w3c: TraceContext, datadog: TraceContext) -> TraceContext {
    if !w3c.is_empty() {
        w3c
    } else {
        datadog
    }
}

/// The context that headers carry, in whichever format is richer.
pub open spec fn propagated(entries: Map<Seq<char>, Seq<Seq<u8>>>) -> TraceContext {
    richer(ctx_of(w3c_context_of(entries)), ctx_of(datadog_context_of(entries)))
}

/// Chooses between the contexts read in the two header formats: the W3C one
/// where it names a trace, else the Datadog one. Where neither names a
/// trace the result is empty, and the span starts a new trace.
pub fn merge_contexts(w3c: TraceContext, datadog: TraceContext) -> (r: TraceContext)
    ensures
        r == richer(w3c, datadog),
        r.is_empty() <==> (w3c.is_empty() && datadog.is_empty()),
{
    if !w3c.is_empty() {
        w3c
    } else {
        datadog
    }
}

/// Reads the trace context that a caller propagated, in the W3C
/// `traceparent` header or the `x-datadog-*` headers, whichever is richer.
/// Never fails: absent, malformed or unsampled headers give the empty
/// context, which starts a new trace; a sampled `traceparent` gives its ids.
pub fn extract_context(headers: &http::HeaderMap) -> (r: TraceContext)
    ensures
        r == propagated(header_entries(*headers)),
        ({
            let e = header_entries(*headers);
            first_value(e, "x-datadog-sampling-priority"@) is None && (first_value(
                e,
                "traceparent"@,
            ) is None || !has_dash(first_value(e, "traceparent"@)->0)) ==> r.is_empty()
        }),
        forall|t: u128, p: u64|
            t != 0 && p != 0 && first_value(header_entries(*headers), "traceparent"@) == Some(
                traceparent_value(t, p, "01"@),
            ) ==> r == (TraceContext { trace_id: t, parent_id: p }),
{
    let w3c = extract_w3c(headers);
    let datadog = extract_datadog(headers);
    merge_contexts(w3c, datadog)
}

/// Writes a trace context into outbound headers, in the W3C and in the
/// Datadog format, so that the far side can continue the trace whichever
/// one it reads. An empty context writes nothing, and neither does a map
/// that already holds `HEADER_NAME_LIMIT` or more header names.
pub fn inject_context(headers: &mut http::HeaderMap, ctx: TraceContext)
    ensures
        ctx.is_empty() ==> *final(headers) == *old(headers),
        !ctx.is_empty() && header_entries(*old(headers)).dom().len() >= HEADER_NAME_LIMIT
            ==> *final(headers) == *old(headers),
        !ctx.is_empty() && header_entries(*old(headers)).dom().len() < HEADER_NAME_LIMIT
            ==> header_entries(*final(headers)) == with_trace_headers(
            header_entries(*old(headers)),
            ctx,
        ),
{
    if !ctx.is_empty() {
        let n = header_name_count(headers);
        if n < HEADER_NAME_LIMIT {
            inject_w3c(headers, ctx);
            inject_datadog(headers, ctx);
        }
    }
}

/// The trace context of the span that is current here.
pub fn current_context() -> (r: TraceContext) {
    let span = tracing::Span::current();
    span_context(&span)
}

} // verus!
