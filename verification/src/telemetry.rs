//! Tracing: the filters of the two log outputs, and the ids of the current
//! trace that the service stores with each task.
use vstd::prelude::*;
use opentelemetry::trace::TraceContextExt;
use std::str::FromStr;
use tracing::metadata::ParseLevelError;
use tracing::{Level, Span};
use tracing_opentelemetry::OpenTelemetrySpanExt;
use crate::stream::owned;

verus! {

/// The log levels and the trace collector's address.
pub struct TracingConfig {
    pub level_otel: String,
    pub level_stdout: String,
    pub url: String,
}

/// The five levels of `tracing`, most severe first.
pub enum LogLevel {
    Error,
    Warn,
    Info,
    Debug,
    Trace,
}

#[verifier::external_type_specification]
#[verifier::external_body]
pub struct ExSpan(Span);

#[verifier::external_type_specification]
#[verifier::external_body]
pub struct ExParseLevelError(ParseLevelError);

/// `c` in ASCII lower case.
pub open spec fn ascii_lower(c: char) -> char {
    if 'A' <= c && c <= 'Z' {
        ((c as int) + 32) as char
    } else {
        c
    }
}

/// `a` and `b` are equal but for the case of ASCII letters.
pub open spec fn eq_ignore_ascii_case(a: Seq<char>, b: Seq<char>) -> bool {
    &&& a.len() == b.len()
    &&& forall|i: int| 0 <= i < a.len() ==> ascii_lower(a[i]) == ascii_lower(b[i])
}

/// `s` without one leading `+`.
pub open spec fn unsigned_digits(s: Seq<char>) -> Seq<char> {
    if s.len() > 0 && s[0] == '+' {
        s.drop_first()
    } else {
        s
    }
}

/// `s` is a non-empty run of ASCII digits.
pub open spec fn all_digits(s: Seq<char>) -> bool {
    &&& s.len() > 0
    &&& forall|i: int| 0 <= i < s.len() ==> '0' <= s[i] && s[i] <= '9'
}

/// The number that a run of ASCII digits spells.
pub open spec fn decimal_value(s: Seq<char>) -> nat
    decreases s.len(),
{
    if s.len() == 0 {
        0
    } else {
        decimal_value(s.drop_last()) * 10 + ((s.last() as int) - 48) as nat
    }
}

/// What `tracing::Level::from_str` makes of `s`: a number from 1 (error) to
/// 5 (trace), as `usize` reads numbers, or a level's name in any case.
pub open spec fn level_from_text(s: Seq<char>) -> Option<LogLevel> {
    let t = unsigned_digits(s);
    if all_digits(t) && 1 <= decimal_value(t) <= 5 {
        let v = decimal_value(t);
        if v == 1 {
            Some(LogLevel::Error)
        } else if v == 2 {
            Some(LogLevel::Warn)
        } else if v == 3 {
            Some(LogLevel::Info)
        } else if v == 4 {
            Some(LogLevel::Debug)
        } else {
            Some(LogLevel::Trace)
        }
    } else if eq_ignore_ascii_case(s, "error"@) {
        Some(LogLevel::Error)
    } else if eq_ignore_ascii_case(s, "warn"@) {
        Some(LogLevel::Warn)
    } else if eq_ignore_ascii_case(s, "info"@) {
        Some(LogLevel::Info)
    } else if eq_ignore_ascii_case(s, "debug"@) {
        Some(LogLevel::Debug)
    } else if eq_ignore_ascii_case(s, "trace"@) {
        Some(LogLevel::Trace)
    } else {
        None
    }
}

/// `<tracing::Level as FromStr>::from_str`: the contract restates the few
/// lines of `tracing-core`'s `impl FromStr for Level`.
#[verifier::external_body]
fn parse_level(s: &str) -> (r: Result<LogLevel, ParseLevelError>)
    ensures
        match r {
            Ok(l) => level_from_text(s@) == Some(l),
            Err(_) => level_from_text(s@) is None,
        },
{
    match Level::from_str(s) {
        Ok(Level::ERROR) => Ok(LogLevel::Error),
        Ok(Level::WARN) => Ok(LogLevel::Warn),
        Ok(Level::INFO) => Ok(LogLevel::Info),
        Ok(Level::DEBUG) => Ok(LogLevel::Debug),
        Ok(_) => Ok(LogLevel::Trace),
        Err(e) => Err(e),
    }
}

/// A filter: the level it lets through, and the per-target directives
/// layered over it.
pub struct FilterPlan {
    pub level: LogLevel,
    pub directives: Vec<String>,
}

/// The per-target directives of the filters: the HTTP, gRPC and
/// tower crates are silenced, but for `tower_http`, whose request spans the
/// trace collector gets at `debug` (`for_collector`) and the console never.
pub open spec fn target_directives(for_collector: bool) -> Seq<Seq<char>> {
    seq![
        "tower=off"@,
        "axum=off"@,
        "h2=off"@,
        "hyper_util=off"@,
        "tonic=off"@,
        if for_collector { "tower_http=debug"@ } else { "tower_http=off"@ },
    ]
}

/// The views of a list of strings.
pub open spec fn texts(v: Seq<String>) -> Seq<Seq<char>> {
    v.map_values(|s: String| s@)
}

fn directives(for_collector: bool) -> (d: Vec<String>)
    ensures
        texts(d@) == target_directives(for_collector),
{
    let mut d: Vec<String> = Vec::new();
    d.push(owned("tower=off"));
    d.push(owned("axum=off"));
    d.push(owned("h2=off"));
    d.push(owned("hyper_util=off"));
    d.push(owned("tonic=off"));
    if for_collector {
        d.push(owned("tower_http=debug"));
    } else {
        d.push(owned("tower_http=off"));
    }
    proof {
        assert(texts(d@) =~= target_directives(for_collector));
    }
    d
}

impl TracingConfig {
    /// The filter of the console output: its level from `level_stdout`.
    pub fn stdout_filter(&self) -> (r: Result<FilterPlan, ParseLevelError>)
        ensures
            r is Ok <==> level_from_text(self.level_stdout@) is Some,
            r matches Ok(p) ==> {
                &&& level_from_text(self.level_stdout@) == Some(p.level)
                &&& texts(p.directives@) == target_directives(false)
            },
    {
        let level = parse_level(self.level_stdout.as_str())?;
        Ok(FilterPlan { level, directives: directives(false) })
    }

    /// The filter of the output to the trace collector: its level from
    /// `level_otel`.
    pub fn otel_filter(&self) -> (r: Result<FilterPlan, ParseLevelError>)
        ensures
            r is Ok <==> level_from_text(self.level_otel@) is Some,
            r matches Ok(p) ==> {
                &&& level_from_text(self.level_otel@) == Some(p.level)
                &&& texts(p.directives@) == target_directives(true)
            },
    {
        let level = parse_level(self.level_otel.as_str())?;
        Ok(FilterPlan { level, directives: directives(true) })
    }
}

/// `s` is an id as OpenTelemetry prints it: `n` lowercase hexadecimal
/// digits.
pub open spec fn is_hex_id(s: Seq<char>, n: nat) -> bool {
    &&& s.len() == n
    &&& forall|i: int|
        0 <= i < n ==> ('0' <= #[trigger] s[i] && s[i] <= '9') || ('a' <= s[i] && s[i] <= 'f')
}

/// The OpenTelemetry span id of `span` (`span.context().span().span_context()
/// .span_id().to_string()`): it depends on the running tracer, so the
/// contract claims only the form that `opentelemetry`'s `Display for SpanId`
/// writes (`{:016x}`).
#[verifier::external_body]
fn otel_span_id(span: &Span) -> (r: String)
    ensures
        is_hex_id(r@, 16),
{
    span.context().span().span_context().span_id().to_string()
}

/// The OpenTelemetry trace id of `span`: as `otel_span_id`, with the form
/// of `Display for TraceId` (`{:032x}`).
#[verifier::external_body]
fn otel_trace_id(span: &Span) -> (r: String)
    ensures
        is_hex_id(r@, 32),
{
    span.context().span().span_context().trace_id().to_string()
}

/// The id of the span, as the service stores it with a task. Which id it is
/// is not stated: the OpenTelemetry layer draws it at random when the span
/// is made, and keeps it in the span's subscriber.
pub fn get_span_id(span: &Span) -> (r: String)
    ensures
        is_hex_id(r@, 16),
{
    otel_span_id(span)
}

/// The id of the span's trace, as the service stores it with a task. Which
/// id it is is not stated: the layer draws it at random (or takes it from
/// the parent context) and keeps it in the span's subscriber.
pub fn get_trace_id(span: &Span) -> (r: String)
    ensures
        is_hex_id(r@, 32),
{
    otel_trace_id(span)
}

} // verus!
