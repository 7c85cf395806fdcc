//! Log events and the injection of trace context into their fields.

use crate::codec::{
    be_u64, is_decimal_numeral, lemma_decimal_is_numeral, span_id_decimal, trace_id_decimal,
    trace_id_low64,
};
use crate::trace_context::{current, SpanContext};
use vstd::prelude::*;
use vstd::string::StringExecFns;

verus! {

/// The severity of a log event.
#[derive(Clone, Copy, Debug, PartialEq, Eq)]
pub enum Level {
    Error,
    Warn,
    Info,
    Debug,
    Trace,
}

/// The value of one structured field.
#[derive(Clone, Debug, PartialEq, Eq)]
pub enum FieldValue {
    Text(String),
    Signed(i64),
    Unsigned(u64),
    Flag(bool),
}

/// One structured key-value field of a log event.
#[derive(Clone, Debug, PartialEq, Eq)]
pub struct Field {
    pub key: String,
    pub value: FieldValue,
}

/// What identifies the service in every correlated log event. It is resolved
/// once and only read afterwards.
#[derive(Clone, Debug, PartialEq, Eq)]
pub struct ServiceMetadata {
    pub service: String,
    pub env: String,
    pub version: String,
}

/// A log event on its way to the sink.
#[derive(Clone, Debug, PartialEq, Eq)]
pub struct LogEvent {
    pub level: Level,
    pub message: String,
    pub fields: Vec<Field>,
}

/// How many fields a valid span adds to an event.
pub const INJECTED_FIELDS: usize = 5;

/// The configured value, or the default where none is configured.
pub open spec fn or_default(configured: Option<String>, default: Seq<char>) -> Seq<char> {
    match configured {
        Some(s) => s@,
        None => default,
    }
}

/// Whether `f` is the text field `key = value`.
pub open spec fn is_text_field(f: Field, key: Seq<char>, value: Seq<char>) -> bool {
    &&& f.key@ == key
    &&& f.value matches FieldValue::Text(t) && t@ == value
}

/// Whether `key` is one of the two reserved identifier keys.
pub open spec fn is_identifier_key(key: Seq<char>) -> bool {
    key == "dd.trace_id"@ || key == "dd.span_id"@
}

/// Whether `out` is `fields` with the context of `ctx` injected: the five
/// `dd.*` fields first, in a fixed order, then the caller's fields as they
/// were given, none dropped or changed.
pub open spec fn enriched(
    out: Seq<Field>,
    ctx: SpanContext,
    meta: ServiceMetadata,
    fields: Seq<Field>,
) -> bool {
    &&& out.len() == fields.len() + INJECTED_FIELDS
    &&& is_text_field(out[0], "dd.trace_id"@, ctx.trace_decimal())
    &&& is_text_field(out[1], "dd.span_id"@, ctx.span_decimal())
    &&& is_text_field(out[2], "dd.service"@, meta.service@)
    &&& is_text_field(out[3], "dd.env"@, meta.env@)
    &&& is_text_field(out[4], "dd.version"@, meta.version@)
    &&& out.skip(INJECTED_FIELDS as int) == fields
}

/// What the injector hands to the sink for an event emitted under `ctx`:
/// enriched fields under a valid span, the caller's own fields otherwise.
pub open spec fn injected(
    out: Seq<Field>,
    ctx: Option<SpanContext>,
    meta: ServiceMetadata,
    fields: Seq<Field>,
) -> bool {
    match ctx {
        Some(c) => if c.valid() {
            enriched(out, c, meta, fields)
        } else {
            out == fields
        },
        None => out == fields,
    }
}

fn text_field(key: &str, value: String) -> (f: Field)
    ensures
        is_text_field(f, key@, value@),
{
    Field { key: String::from_str(key), value: FieldValue::Text(value) }
}

/// The configured value if there is one, else the default.
pub fn configured_or(configured: Option<String>, default: &str) -> (s: String)
    ensures
        s@ == or_default(configured, default@),
{
    match configured {
        Some(s) => s,
        None => String::from_str(default),
    }
}

impl ServiceMetadata {
    /// Resolves the metadata from the configured service name, environment
    /// and version, each with its default.
    pub fn resolve(service: Option<String>, env: Option<String>, version: Option<String>) -> (m:
        ServiceMetadata)
        ensures
            m.service@ == or_default(service, "rust-datadog-otel"@),
            m.env@ == or_default(env, "development"@),
            m.version@ == or_default(version, "0.1.0"@),
    {
        ServiceMetadata {
            service: configured_or(service, "rust-datadog-otel"),
            env: configured_or(env, "development"),
            version: configured_or(version, "0.1.0"),
        }
    }
}

/// The five fields that correlate an event with the span `ctx`.
pub fn correlation_fields(ctx: &SpanContext, meta: &ServiceMetadata) -> (out: Vec<Field>)
    ensures
        enriched(out@, *ctx, *meta, Seq::empty()),
{
    let mut out: Vec<Field> = Vec::new();
    out.push(text_field("dd.trace_id", trace_id_decimal(&ctx.trace_id)));
    out.push(text_field("dd.span_id", span_id_decimal(&ctx.span_id)));
    out.push(text_field("dd.service", meta.service.clone()));
    out.push(text_field("dd.env", meta.env.clone()));
    out.push(text_field("dd.version", meta.version.clone()));
    assert(out@.skip(5) =~= Seq::<Field>::empty());
    out
}

/// Merges the context of `ctx` into the caller's fields: under a valid span
/// the five `dd.*` fields come first and the caller's fields follow
/// untouched; otherwise the caller's fields are returned as they are.
pub fn inject(ctx: Option<SpanContext>, meta: &ServiceMetadata, fields: Vec<Field>) -> (out: Vec<
    Field,
>)
    ensures
        injected(out@, ctx, *meta, fields@),
{
    match ctx {
        Some(c) => {
            if c.is_valid() {
                let mut out = correlation_fields(&c, meta);
                let mut rest = fields;
                out.append(&mut rest);
                assert(out@.skip(5) =~= fields@);
                out
            } else {
                fields
            }
        },
        None => fields,
    }
}

/// The event that reaches the sink for a log call made under `ctx`.
pub fn enrich(
    ctx: Option<SpanContext>,
    meta: &ServiceMetadata,
    level: Level,
    message: String,
    fields: Vec<Field>,
) -> (e: LogEvent)
    ensures
        e.level == level,
        e.message == message,
        injected(e.fields@, ctx, *meta, fields@),
{
    LogEvent { level, message, fields: inject(ctx, meta, fields) }
}

/// Builds the event for a log call made here and now: the call's level and
/// message, and its fields with the calling task's trace context injected if
/// it runs inside a valid span.
pub fn emit(meta: &ServiceMetadata, level: Level, message: String, fields: Vec<Field>) -> (e:
    LogEvent)
    ensures
        e.level == level,
        e.message == message,
        e.fields@ == fields@ || exists|c: SpanContext|
            c.valid() && #[trigger] enriched(e.fields@, c, *meta, fields@),
{
    enrich(current(), meta, level, message, fields)
}

/// Without a valid span the injector changes nothing: the event carries the
/// caller's fields and no others.
pub proof fn lemma_no_span_no_change(
    out: Seq<Field>,
    ctx: Option<SpanContext>,
    meta: ServiceMetadata,
    fields: Seq<Field>,
)
    requires
        injected(out, ctx, meta, fields),
        ctx matches Some(c) ==> !c.valid(),
    ensures
        out == fields,
{
}

/// Under a valid span, and with caller fields that stay out of the reserved
/// identifier keys, the event has exactly one `dd.trace_id` and exactly one
/// `dd.span_id` field, and each holds a decimal numeral: not empty, digits
/// only, hence no sign.
pub proof fn lemma_one_identifier_pair(
    out: Seq<Field>,
    ctx: SpanContext,
    meta: ServiceMetadata,
    fields: Seq<Field>,
)
    requires
        ctx.valid(),
        injected(out, Some(ctx), meta, fields),
        forall|i: int| 0 <= i < fields.len() ==> !is_identifier_key(#[trigger] fields[i].key@),
    ensures
        forall|i: int| 0 <= i < out.len() ==> (#[trigger] out[i].key@ == "dd.trace_id"@ <==> i == 0),
        forall|i: int| 0 <= i < out.len() ==> (#[trigger] out[i].key@ == "dd.span_id"@ <==> i == 1),
        out[0].value matches FieldValue::Text(t) && is_decimal_numeral(t@),
        out[1].value matches FieldValue::Text(s) && is_decimal_numeral(s@),
{
    reveal_strlit("dd.trace_id");
    reveal_strlit("dd.span_id");
    reveal_strlit("dd.service");
    reveal_strlit("dd.env");
    reveal_strlit("dd.version");
    lemma_decimal_is_numeral(trace_id_low64(ctx.trace_id@));
    lemma_decimal_is_numeral(be_u64(ctx.span_id@));
    let trace_key = "dd.trace_id"@;
    let span_key = "dd.span_id"@;
    assert(trace_key.len() == 11 && span_key.len() == 10);
    assert("dd.service"@.len() == 10 && "dd.env"@.len() == 6 && "dd.version"@.len() == 10);
    assert(span_key[3] == 's' && "dd.version"@[3] == 'v');
    assert(span_key[4] == 'p' && "dd.service"@[4] == 'e');
    assert forall|i: int| 0 <= i < out.len() implies (#[trigger] out[i].key@ == trace_key <==> i
        == 0) && (out[i].key@ == span_key <==> i == 1) by {
        if i >= 5 {
            assert(out[i] == out.skip(5)[i - 5]);
            assert(!is_identifier_key(fields[i - 5].key@));
        } else if i == 2 {
            assert(out[2].key@ == "dd.service"@);
        } else if i == 3 {
            assert(out[3].key@ == "dd.env"@);
        } else if i == 4 {
            assert(out[4].key@ == "dd.version"@);
        }
    }
}

} // verus!
