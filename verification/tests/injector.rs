use rust_datadog_otel::injector::{
    correlation_fields, emit, enrich, inject, Field, FieldValue, Level, ServiceMetadata,
    INJECTED_FIELDS,
};
use rust_datadog_otel::trace_context::SpanContext;

fn text(key: &str, value: &str) -> Field {
    Field { key: key.to_string(), value: FieldValue::Text(value.to_string()) }
}

fn meta() -> ServiceMetadata {
    ServiceMetadata::resolve(Some("svc".to_string()), Some("test".to_string()), None)
}

fn valid_context() -> SpanContext {
    let mut trace_id = [0u8; 16];
    trace_id[3] = 9;
    trace_id[15] = 77;
    SpanContext::new(trace_id, [0, 0, 0, 0, 0, 0, 2, 1])
}

#[test]
fn service_metadata_defaults() {
    let m = ServiceMetadata::resolve(None, None, None);
    assert_eq!(m.service, "rust-datadog-otel");
    assert_eq!(m.env, "development");
    assert_eq!(m.version, "0.1.0");
}

#[test]
fn service_metadata_takes_configured_values() {
    let m = ServiceMetadata::resolve(
        Some("svc".to_string()),
        Some("test".to_string()),
        Some("9.9.9".to_string()),
    );
    assert_eq!(m.service, "svc");
    assert_eq!(m.env, "test");
    assert_eq!(m.version, "9.9.9");
    let empty = ServiceMetadata::resolve(Some(String::new()), None, None);
    assert_eq!(empty.service, "");
}

#[test]
fn inject_without_span_changes_nothing() {
    let fields = vec![text("user_id", "u-1"), Field { key: "x".to_string(), value: FieldValue::Signed(1) }];
    let out = inject(None, &meta(), fields.clone());
    assert_eq!(out, fields);
    assert!(out.iter().all(|f| f.key != "dd.trace_id" && f.key != "dd.span_id"));
}

#[test]
fn inject_with_invalid_span_changes_nothing() {
    let fields = vec![text("user_id", "u-1")];
    let zero_span = SpanContext::new([1u8; 16], [0u8; 8]);
    assert_eq!(inject(Some(zero_span), &meta(), fields.clone()), fields);
    let zero_trace = SpanContext::new([0u8; 16], [1u8; 8]);
    assert_eq!(inject(Some(zero_trace), &meta(), fields.clone()), fields);
}

#[test]
fn inject_with_valid_span_prepends_correlation_fields() {
    let fields = vec![text("user_id", "u-1"), Field { key: "x".to_string(), value: FieldValue::Signed(1) }];
    let out = inject(Some(valid_context()), &meta(), fields.clone());
    assert_eq!(out.len(), fields.len() + INJECTED_FIELDS);
    assert_eq!(out[0], text("dd.trace_id", "77"));
    assert_eq!(out[1], text("dd.span_id", "513"));
    assert_eq!(out[2], text("dd.service", "svc"));
    assert_eq!(out[3], text("dd.env", "test"));
    assert_eq!(out[4], text("dd.version", "0.1.0"));
    assert_eq!(&out[5..], &fields[..]);
}

#[test]
fn inject_yields_exactly_one_identifier_pair() {
    let out = inject(Some(valid_context()), &meta(), vec![text("a", "b"), text("c", "d")]);
    assert_eq!(out.iter().filter(|f| f.key == "dd.trace_id").count(), 1);
    assert_eq!(out.iter().filter(|f| f.key == "dd.span_id").count(), 1);
    for f in out.iter().filter(|f| f.key == "dd.trace_id" || f.key == "dd.span_id") {
        match &f.value {
            FieldValue::Text(t) => {
                assert!(!t.is_empty());
                assert!(t.chars().all(|c| c.is_ascii_digit()));
            }
            other => panic!("identifier is not text: {:?}", other),
        }
    }
}

#[test]
fn inject_keeps_caller_fields_that_use_a_reserved_key() {
    let fields = vec![text("dd.trace_id", "mine")];
    let out = inject(Some(valid_context()), &meta(), fields.clone());
    assert_eq!(out.len(), 6);
    assert_eq!(out[5], fields[0]);
}

#[test]
fn correlation_fields_are_the_five_reserved_ones() {
    let out = correlation_fields(&valid_context(), &meta());
    let keys: Vec<&str> = out.iter().map(|f| f.key.as_str()).collect();
    assert_eq!(keys, vec!["dd.trace_id", "dd.span_id", "dd.service", "dd.env", "dd.version"]);
}

#[test]
fn enrich_keeps_level_and_message() {
    let e = enrich(
        Some(valid_context()),
        &meta(),
        Level::Info,
        "hello".to_string(),
        vec![Field { key: "x".to_string(), value: FieldValue::Signed(1) }],
    );
    assert_eq!(e.level, Level::Info);
    assert_eq!(e.message, "hello");
    assert_eq!(e.fields.len(), 6);
    assert_eq!(e.fields[2], text("dd.service", "svc"));
    assert_eq!(e.fields[3], text("dd.env", "test"));
    assert_eq!(e.fields[5], Field { key: "x".to_string(), value: FieldValue::Signed(1) });
}

#[test]
fn emit_outside_any_span_forwards_fields_unmodified() {
    let fields = vec![text("k", "v"), Field { key: "ok".to_string(), value: FieldValue::Flag(true) }];
    let e = emit(&meta(), Level::Warn, "no span here".to_string(), fields.clone());
    assert_eq!(e.level, Level::Warn);
    assert_eq!(e.message, "no span here");
    assert_eq!(e.fields, fields);
}
