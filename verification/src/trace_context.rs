//! The span that is active where a log event is emitted, and the pair of
//! decimal identifiers that correlates the event with its trace.

use crate::codec::{
    be_u64, decimal, is_decimal_numeral, lemma_decimal_is_numeral, span_id_decimal,
    trace_id_decimal, trace_id_low64,
};
use opentelemetry::trace::TraceContextExt;
use tracing_opentelemetry::OpenTelemetrySpanExt;
use vstd::prelude::*;

verus! {

/// Whether every byte of `b` is zero.
pub open spec fn all_zero(b: Seq<u8>) -> bool {
    forall|i: int| 0 <= i < b.len() ==> b[i] == 0
}

/// The identifiers of one span: the 16-byte identifier of its trace and its
/// own 8-byte identifier, both big-endian.
#[derive(Clone, Copy, Debug)]
pub struct SpanContext {
    pub trace_id: [u8; 16],
    pub span_id: [u8; 8],
}

/// The active span as the tracing registry reports it: its identifiers and
/// the registry's own verdict on them.
#[derive(Clone, Copy, Debug)]
pub struct ObservedSpan {
    pub trace_id: [u8; 16],
    pub span_id: [u8; 8],
    pub valid: bool,
}

fn any_nonzero<const N: usize>(b: &[u8; N]) -> (r: bool)
    ensures
        r == !all_zero(b@),
{
    let mut i: usize = 0;
    while i < N
        invariant
            0 <= i <= N,
            b@.len() == N,
            forall|j: int| 0 <= j < i ==> b@[j] == 0,
        decreases N - i,
    {
        if b[i] != 0 {
            return true;
        }
        i += 1;
    }
    false
}

impl ObservedSpan {
    /// The context of an observed span, kept only if the registry holds the
    /// span valid; a no-op or default span gives `None`.
    pub fn into_context(self) -> (r: Option<SpanContext>)
        ensures
            r == if self.valid {
                Some(SpanContext { trace_id: self.trace_id, span_id: self.span_id })
            } else {
                None
            },
    {
        if self.valid {
            Some(SpanContext { trace_id: self.trace_id, span_id: self.span_id })
        } else {
            None
        }
    }
}

impl SpanContext {
    /// A context is valid when neither identifier is zero.
    pub open spec fn valid(&self) -> bool {
        !all_zero(self.trace_id@) && !all_zero(self.span_id@)
    }

    /// The decimal trace identifier that the log backend expects.
    pub open spec fn trace_decimal(&self) -> Seq<char> {
        decimal(trace_id_low64(self.trace_id@))
    }

    /// The decimal span identifier that the log backend expects.
    pub open spec fn span_decimal(&self) -> Seq<char> {
        decimal(be_u64(self.span_id@))
    }

    /// The context with the given identifiers.
    pub fn new(trace_id: [u8; 16], span_id: [u8; 8]) -> (c: SpanContext)
        ensures
            c.trace_id == trace_id,
            c.span_id == span_id,
    {
        SpanContext { trace_id, span_id }
    }

    /// Whether both identifiers are non-zero.
    pub fn is_valid(&self) -> (r: bool)
        ensures
            r == self.valid(),
    {
        any_nonzero(&self.trace_id) && any_nonzero(&self.span_id)
    }
}

/// Reads the calling task's current span from the tracing registry:
/// `tracing::Span::current`, `OpenTelemetrySpanExt::context`,
/// `TraceContextExt::span` and `SpanRef::span_context`, then the context's
/// `trace_id().to_bytes()`, `span_id().to_bytes()` and `is_valid()`. Which span
/// comes back depends on the caller's task, so nothing is said of the
/// identifiers; the flag is true exactly when neither identifier is zero, as
/// `SpanContext::is_valid` computes it.
#[verifier::external_body]
fn observe_active_span() -> (o: ObservedSpan)
    ensures
        o.valid == (!all_zero(o.trace_id@) && !all_zero(o.span_id@)),
{
    let context = tracing::Span::current().context();
    let span = context.span();
    let span_context = span.span_context();
    ObservedSpan {
        trace_id: span_context.trace_id().to_bytes(),
        span_id: span_context.span_id().to_bytes(),
        valid: span_context.is_valid(),
    }
}

/// The innermost span active in the calling task, or `None` outside any span
/// and for a span without valid identifiers.
pub fn current() -> (r: Option<SpanContext>)
    ensures
        r matches Some(c) ==> c.valid(),
{
    observe_active_span().into_context()
}

/// The correlation pair of a span context: `(trace_id, span_id)` in decimal
/// for a valid context, `None` for any other.
pub fn trace_context_of(ctx: &SpanContext) -> (r: Option<(String, String)>)
    ensures
        r is Some <==> ctx.valid(),
        r matches Some(p) ==> p.0@ == ctx.trace_decimal() && p.1@ == ctx.span_decimal(),
{
    if !ctx.is_valid() {
        return None;
    }
    Some((trace_id_decimal(&ctx.trace_id), span_id_decimal(&ctx.span_id)))
}

/// The correlation pair of the calling task's current span, if it has a valid
/// one: two decimal numerals, the second of which is not zero.
pub fn current_trace_context() -> (r: Option<(String, String)>)
    ensures
        r matches Some(p) ==> exists|c: SpanContext|
            c.valid() && p.0@ == #[trigger] c.trace_decimal() && p.1@ == c.span_decimal(),
        r matches Some(p) ==> is_decimal_numeral(p.0@) && is_decimal_numeral(p.1@),
{
    match current() {
        Some(c) => {
            proof {
                lemma_decimal_is_numeral(trace_id_low64(c.trace_id@));
                lemma_decimal_is_numeral(be_u64(c.span_id@));
            }
            trace_context_of(&c)
        },
        None => None,
    }
}

} // verus!
