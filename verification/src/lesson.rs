use vstd::prelude::*;

use crate::decimal::{decimal, push_decimal};

verus! {

/// The variants of the service: one per lesson of the three courses, each
/// wiring the same task API to a different observability stack.
#[derive(Clone, Copy, PartialEq, Eq, Structural, Debug)]
pub enum Lesson {
    /// CNCF course, setup: the bare HTTP API.
    CncfSetup,
    /// CNCF course, dashboard: OTLP logs, metrics and traces through `tracing`.
    CncfDashboard,
    /// Rust-native course: JSON logs from `tracing-subscriber`.
    NativeSubscriber,
    /// Rust-native course: `tracing` spans exported over OTLP.
    NativeTraces,
    /// Rust-native course: traces over OTLP plus Prometheus metrics.
    NativeIntegration,
    /// OpenTelemetry course: SDK providers initialised, console output.
    OtelInit,
    /// OpenTelemetry course: log records emitted through the OTel logger.
    OtelLogs,
    /// OpenTelemetry course: manual spans, metrics and log records.
    OtelTraces,
}

/// Whether the lesson belongs to the OpenTelemetry course.
pub open spec fn is_otel_course(lesson: Lesson) -> bool {
    lesson == Lesson::OtelInit || lesson == Lesson::OtelLogs || lesson == Lesson::OtelTraces
}

/// The TCP port a lesson's server listens on.
pub open spec fn port_of(lesson: Lesson) -> u16 {
    if is_otel_course(lesson) {
        3003
    } else {
        3001
    }
}

/// The TCP port a lesson's server listens on: 3003 for the OpenTelemetry
/// course, 3001 for the others.
pub fn listen_port(lesson: Lesson) -> (port: u16)
    ensures
        port == port_of(lesson),
        lesson == Lesson::CncfSetup ==> port == 3001,
        lesson == Lesson::CncfDashboard ==> port == 3001,
        lesson == Lesson::NativeSubscriber ==> port == 3001,
        lesson == Lesson::NativeTraces ==> port == 3001,
        lesson == Lesson::NativeIntegration ==> port == 3001,
        lesson == Lesson::OtelInit ==> port == 3003,
        lesson == Lesson::OtelLogs ==> port == 3003,
        lesson == Lesson::OtelTraces ==> port == 3003,
{
    match lesson {
        Lesson::OtelInit | Lesson::OtelLogs | Lesson::OtelTraces => 3003,
        _ => 3001,
    }
}

/// The socket address a lesson's server binds: the loopback interface and
/// the lesson's port.
pub open spec fn address_of(lesson: Lesson) -> Seq<char> {
    "127.0.0.1:"@ + decimal(port_of(lesson) as nat)
}

/// The socket address a lesson's server binds, such as `127.0.0.1:3001`.
pub fn listen_address(lesson: Lesson) -> (addr: String)
    ensures
        addr@ == address_of(lesson),
        addr@ == "127.0.0.1:"@ + decimal(port_of(lesson) as nat),
        (lesson == Lesson::OtelInit || lesson == Lesson::OtelLogs || lesson == Lesson::OtelTraces)
            ==> addr@ == "127.0.0.1:3003"@,
        !(lesson == Lesson::OtelInit || lesson == Lesson::OtelLogs || lesson == Lesson::OtelTraces)
            ==> addr@ == "127.0.0.1:3001"@,
{
    proof {
        lemma_port_numerals();
    }
    let mut addr = String::from_str("127.0.0.1:");
    let port = listen_port(lesson);
    push_decimal(&mut addr, port as u64);
    addr
}

/// The URL at which a lesson's server answers, such as `http://127.0.0.1:3001`.
pub fn server_url(lesson: Lesson) -> (url: String)
    ensures
        url@ == "http://"@ + address_of(lesson),
        (lesson == Lesson::OtelInit || lesson == Lesson::OtelLogs || lesson == Lesson::OtelTraces)
            ==> url@ == "http://127.0.0.1:3003"@,
        !(lesson == Lesson::OtelInit || lesson == Lesson::OtelLogs || lesson == Lesson::OtelTraces)
            ==> url@ == "http://127.0.0.1:3001"@,
{
    proof {
        lemma_port_numerals();
        reveal_strlit("http://");
        reveal_strlit("127.0.0.1:3001");
        reveal_strlit("127.0.0.1:3003");
        reveal_strlit("http://127.0.0.1:3001");
        reveal_strlit("http://127.0.0.1:3003");
        assert("http://"@ + "127.0.0.1:3001"@ =~= "http://127.0.0.1:3001"@);
        assert("http://"@ + "127.0.0.1:3003"@ =~= "http://127.0.0.1:3003"@);
    }
    let mut url = String::from_str("http://");
    let addr = listen_address(lesson);
    url.append(addr.as_str());
    url
}

/// The addresses the servers bind, written out: `127.0.0.1:` followed by
/// the port's digits, 3001 or 3003.
pub proof fn lemma_port_numerals()
    ensures
        "127.0.0.1:"@ + decimal(3001) == "127.0.0.1:3001"@,
        "127.0.0.1:"@ + decimal(3003) == "127.0.0.1:3003"@,
{
    reveal_with_fuel(decimal, 5);
    reveal_strlit("127.0.0.1:");
    reveal_strlit("127.0.0.1:3001");
    reveal_strlit("127.0.0.1:3003");
    assert(decimal(3) =~= seq!['3']);
    assert(decimal(30) =~= seq!['3', '0']);
    assert(decimal(300) =~= seq!['3', '0', '0']);
    assert(decimal(3001) =~= seq!['3', '0', '0', '1']);
    assert(decimal(3003) =~= seq!['3', '0', '0', '3']);
    assert("127.0.0.1:"@ + decimal(3001) =~= "127.0.0.1:3001"@);
    assert("127.0.0.1:"@ + decimal(3003) =~= "127.0.0.1:3003"@);
}

/// The service name under which a lesson reports its telemetry, where it
/// exports any over OTLP.
pub open spec fn service_name_of(lesson: Lesson) -> Option<Seq<char>> {
    match lesson {
        Lesson::CncfDashboard => Some("learn-tracing-cncf"@),
        Lesson::NativeTraces | Lesson::NativeIntegration => Some("learn-tracing-native"@),
        Lesson::OtelInit | Lesson::OtelLogs | Lesson::OtelTraces => Some("learn-tracing-otel"@),
        Lesson::CncfSetup | Lesson::NativeSubscriber => None,
    }
}

/// The service name under which a lesson reports its telemetry over OTLP;
/// `None` for the lessons that export nothing.
pub fn service_name(lesson: Lesson) -> (name: Option<String>)
    ensures
        match name {
            Some(n) => service_name_of(lesson) == Some(n@),
            None => service_name_of(lesson) is None,
        },
        lesson == Lesson::CncfSetup ==> name is None,
        lesson == Lesson::NativeSubscriber ==> name is None,
        lesson == Lesson::CncfDashboard ==> (name is Some && name.unwrap()@ == "learn-tracing-cncf"@),
        lesson == Lesson::NativeTraces ==> (name is Some && name.unwrap()@ == "learn-tracing-native"@),
        lesson == Lesson::NativeIntegration ==> (name is Some && name.unwrap()@ == "learn-tracing-native"@),
        lesson == Lesson::OtelInit ==> (name is Some && name.unwrap()@ == "learn-tracing-otel"@),
        lesson == Lesson::OtelLogs ==> (name is Some && name.unwrap()@ == "learn-tracing-otel"@),
        lesson == Lesson::OtelTraces ==> (name is Some && name.unwrap()@ == "learn-tracing-otel"@),
{
    match lesson {
        Lesson::CncfDashboard => Some(String::from_str("learn-tracing-cncf")),
        Lesson::NativeTraces | Lesson::NativeIntegration => Some(String::from_str("learn-tracing-native")),
        Lesson::OtelInit | Lesson::OtelLogs | Lesson::OtelTraces => Some(String::from_str("learn-tracing-otel")),
        Lesson::CncfSetup | Lesson::NativeSubscriber => None,
    }
}

/// The OTLP/gRPC endpoint of the collector that receives the telemetry.
pub fn otlp_endpoint() -> (endpoint: String)
    ensures
        endpoint@ == "http://localhost:4317"@,
{
    String::from_str("http://localhost:4317")
}

/// The instrumentation scope: the name given to the tracer, meter and logger.
pub fn instrumentation_scope() -> (scope: String)
    ensures
        scope@ == "learn-tracing"@,
{
    String::from_str("learn-tracing")
}

} // verus!
