use opentelemetry::trace::{TraceContextExt, TracerProvider};
use opentelemetry_sdk::trace::SdkTracerProvider;
use rust_datadog_otel::codec::{encode_span_id, reduce_trace_id};
use rust_datadog_otel::injector::{emit, Field, FieldValue, Level, ServiceMetadata};
use rust_datadog_otel::trace_context::{
    current, current_trace_context, trace_context_of, ObservedSpan, SpanContext,
};
use std::sync::OnceLock;
use tracing::callsite::{Callsite, Identifier};
use tracing::field::{FieldSet, Value};
use tracing::metadata::Kind;
use tracing::subscriber::Interest;
use tracing::{Metadata, Span};
use tracing_opentelemetry::OpenTelemetrySpanExt;
use tracing_subscriber::layer::SubscriberExt;

struct SpanSite {
    meta: OnceLock<Metadata<'static>>,
}

impl Callsite for SpanSite {
    fn set_interest(&self, _interest: Interest) {}

    fn metadata(&self) -> &Metadata<'_> {
        self.meta.get().unwrap()
    }
}

fn span_named(name: &'static str) -> Span {
    let site: &'static SpanSite = Box::leak(Box::new(SpanSite { meta: OnceLock::new() }));
    let fields = FieldSet::new(&[], Identifier(site));
    let meta = Metadata::new(name, "tests", tracing::Level::INFO, None, None, None, fields, Kind::SPAN);
    assert!(site.meta.set(meta).is_ok());
    let meta: &'static Metadata<'static> = site.meta.get().unwrap();
    let no_values: [(&tracing::field::Field, Option<&dyn Value>); 0] = [];
    Span::new(meta, &meta.fields().value_set(&no_values))
}

fn traced<T>(body: impl FnOnce() -> T) -> T {
    let provider = SdkTracerProvider::builder().build();
    let bridge = tracing_opentelemetry::layer().with_tracer(provider.tracer("tests"));
    let subscriber = tracing_subscriber::registry().with(bridge);
    tracing::subscriber::with_default(subscriber, body)
}

fn is_numeral(s: &str) -> bool {
    !s.is_empty() && s.chars().all(|c| c.is_ascii_digit()) && (s.len() == 1 || !s.starts_with('0'))
}

#[test]
fn span_context_validity() {
    assert!(SpanContext::new([1u8; 16], [1u8; 8]).is_valid());
    assert!(!SpanContext::new([0u8; 16], [1u8; 8]).is_valid());
    assert!(!SpanContext::new([1u8; 16], [0u8; 8]).is_valid());
    assert!(!SpanContext::new([0u8; 16], [0u8; 8]).is_valid());
    let mut trace_id = [0u8; 16];
    trace_id[0] = 0x80;
    let mut span_id = [0u8; 8];
    span_id[7] = 1;
    assert!(SpanContext::new(trace_id, span_id).is_valid());
}

#[test]
fn trace_context_of_valid_span() {
    let mut trace_id = [0xabu8; 16];
    trace_id[8..16].copy_from_slice(&[0, 0, 0, 0, 0, 0, 0x30, 0x39]);
    let ctx = SpanContext::new(trace_id, [0, 0, 0, 0, 0, 1, 0, 0]);
    assert_eq!(trace_context_of(&ctx), Some(("12345".to_string(), "65536".to_string())));
}

#[test]
fn trace_context_of_valid_span_with_zero_low_half() {
    let mut trace_id = [0u8; 16];
    trace_id[0] = 7;
    let ctx = SpanContext::new(trace_id, [0xff; 8]);
    assert_eq!(
        trace_context_of(&ctx),
        Some(("0".to_string(), "18446744073709551615".to_string()))
    );
}

#[test]
fn trace_context_of_invalid_span() {
    assert_eq!(trace_context_of(&SpanContext::new([0u8; 16], [5u8; 8])), None);
    assert_eq!(trace_context_of(&SpanContext::new([5u8; 16], [0u8; 8])), None);
}

#[test]
fn no_context_outside_any_span() {
    assert!(current().is_none());
    assert_eq!(current_trace_context(), None);
}

#[test]
fn no_context_without_tracing_bridge() {
    let subscriber = tracing_subscriber::registry();
    let seen = tracing::subscriber::with_default(subscriber, || {
        span_named("op").in_scope(current_trace_context)
    });
    assert_eq!(seen, None);
}

#[test]
fn context_inside_a_span_matches_the_registry() {
    traced(|| {
        let span = span_named("op");
        let expected = span.context().span().span_context().clone();
        assert!(expected.is_valid());
        let seen = span.in_scope(current).unwrap();
        assert!(seen.is_valid());
        assert_eq!(seen.trace_id, expected.trace_id().to_bytes());
        assert_eq!(seen.span_id, expected.span_id().to_bytes());
        let (trace_id, span_id) = span.in_scope(current_trace_context).unwrap();
        assert_eq!(trace_id, reduce_trace_id(&expected.trace_id().to_bytes()).to_string());
        assert_eq!(span_id, encode_span_id(&expected.span_id().to_bytes()).to_string());
        assert_eq!(span_id.parse::<u64>().unwrap(), u64::from_be_bytes(expected.span_id().to_bytes()));
        assert!(is_numeral(&trace_id));
        assert!(is_numeral(&span_id));
        assert_ne!(span_id, "0");
    });
}

#[test]
fn nested_span_resolves_to_innermost() {
    traced(|| {
        let outer = span_named("outer");
        let _in_outer = outer.enter();
        let at_outer = current_trace_context().unwrap();
        let inner = span_named("inner");
        let at_inner = inner.in_scope(current_trace_context).unwrap();
        assert_eq!(at_inner.0, at_outer.0);
        assert_ne!(at_inner.1, at_outer.1);
        assert_eq!(current_trace_context().unwrap(), at_outer);
    });
}

#[test]
fn independent_spans_have_their_own_identifiers() {
    traced(|| {
        let a = span_named("a").in_scope(current_trace_context).unwrap();
        let b = span_named("b").in_scope(current_trace_context).unwrap();
        assert_ne!(a.1, b.1);
        assert_eq!(current_trace_context(), None);
    });
}

#[test]
fn emit_inside_a_span_carries_the_correlation_fields() {
    let meta = ServiceMetadata::resolve(Some("svc".to_string()), Some("test".to_string()), None);
    let x = Field { key: "x".to_string(), value: FieldValue::Signed(1) };
    let (event, expected) = traced(|| {
        let span = span_named("op");
        let expected = span.in_scope(current_trace_context).unwrap();
        let event = span.in_scope(|| emit(&meta, Level::Info, "hello".to_string(), vec![x.clone()]));
        (event, expected)
    });
    assert_eq!(event.level, Level::Info);
    assert_eq!(event.message, "hello");
    assert_eq!(event.fields.len(), 6);
    let text = |key: &str, value: &str| Field {
        key: key.to_string(),
        value: FieldValue::Text(value.to_string()),
    };
    assert_eq!(event.fields[0], text("dd.trace_id", &expected.0));
    assert_eq!(event.fields[1], text("dd.span_id", &expected.1));
    assert_eq!(event.fields[2], text("dd.service", "svc"));
    assert_eq!(event.fields[3], text("dd.env", "test"));
    assert_eq!(event.fields[4], text("dd.version", "0.1.0"));
    assert_eq!(event.fields[5], x);
    assert!(is_numeral(&expected.0));
    assert!(is_numeral(&expected.1));
}

#[test]
fn observed_span_is_kept_only_if_valid() {
    let seen = ObservedSpan { trace_id: [3u8; 16], span_id: [4u8; 8], valid: true };
    let ctx = seen.into_context().unwrap();
    assert_eq!(ctx.trace_id, [3u8; 16]);
    assert_eq!(ctx.span_id, [4u8; 8]);
    let noop = ObservedSpan { trace_id: [0u8; 16], span_id: [0u8; 8], valid: false };
    assert!(noop.into_context().is_none());
}
