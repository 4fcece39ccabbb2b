use learn_tracing::decimal::u64_to_decimal;
use learn_tracing::lesson::{
    instrumentation_scope, listen_address, listen_port, otlp_endpoint, server_url, service_name, Lesson,
};
use learn_tracing::telemetry::{
    creating_task_message, fetching_task_message, http_method, metric_endpoint_label, request_attributes,
    route_label, simulated_latency_ms, span_name, task_created_message, task_fetched_message,
    task_id_attribute, Endpoint,
};

#[test]
fn decimal_of_small_and_large_numbers() {
    assert_eq!(u64_to_decimal(0), "0");
    assert_eq!(u64_to_decimal(7), "7");
    assert_eq!(u64_to_decimal(10), "10");
    assert_eq!(u64_to_decimal(42), "42");
    assert_eq!(u64_to_decimal(u64::MAX), "18446744073709551615");
    for n in [1u64, 99, 100, 3001, 123456789, 1 << 40] {
        assert_eq!(u64_to_decimal(n), n.to_string());
    }
}

#[test]
fn listen_addresses_per_course() {
    assert_eq!(listen_port(Lesson::CncfSetup), 3001);
    assert_eq!(listen_port(Lesson::NativeIntegration), 3001);
    assert_eq!(listen_port(Lesson::OtelTraces), 3003);
    assert_eq!(listen_address(Lesson::CncfDashboard), "127.0.0.1:3001");
    assert_eq!(listen_address(Lesson::OtelLogs), "127.0.0.1:3003");
    assert_eq!(server_url(Lesson::CncfSetup), "http://127.0.0.1:3001");
    assert_eq!(server_url(Lesson::OtelInit), "http://127.0.0.1:3003");
}

#[test]
fn service_names_per_course() {
    assert_eq!(service_name(Lesson::CncfSetup), None);
    assert_eq!(service_name(Lesson::NativeSubscriber), None);
    assert_eq!(service_name(Lesson::CncfDashboard).as_deref(), Some("learn-tracing-cncf"));
    assert_eq!(service_name(Lesson::NativeTraces).as_deref(), Some("learn-tracing-native"));
    assert_eq!(service_name(Lesson::NativeIntegration).as_deref(), Some("learn-tracing-native"));
    assert_eq!(service_name(Lesson::OtelInit).as_deref(), Some("learn-tracing-otel"));
    assert_eq!(otlp_endpoint(), "http://localhost:4317");
    assert_eq!(instrumentation_scope(), "learn-tracing");
}

#[test]
fn methods_routes_and_span_names() {
    assert_eq!(http_method(Endpoint::Health), "GET");
    assert_eq!(http_method(Endpoint::CreateTask), "POST");
    assert_eq!(http_method(Endpoint::GetTask), "GET");
    assert_eq!(route_label(Endpoint::Health), "/health");
    assert_eq!(route_label(Endpoint::GetTask), "/tasks/:id");
    assert_eq!(span_name(Endpoint::CreateTask), "POST /tasks");
    assert_eq!(span_name(Endpoint::GetTask), "GET /tasks/:id");
}

#[test]
fn request_attributes_of_task_routes() {
    let post = request_attributes(Endpoint::CreateTask);
    assert_eq!(
        post,
        vec![("method".to_string(), "POST".to_string()), ("route".to_string(), "/tasks".to_string())]
    );
    let get = request_attributes(Endpoint::GetTask);
    assert_eq!(
        get,
        vec![("method".to_string(), "GET".to_string()), ("route".to_string(), "/tasks/:id".to_string())]
    );
}

#[test]
fn prometheus_endpoint_labels() {
    assert_eq!(metric_endpoint_label(Endpoint::Health), "health");
    assert_eq!(metric_endpoint_label(Endpoint::CreateTask), "create_task");
    assert_eq!(metric_endpoint_label(Endpoint::GetTask), "get_task");
}

#[test]
fn log_messages() {
    assert_eq!(task_created_message(1), "task created: id=1");
    assert_eq!(task_fetched_message(42), "task fetched: id=42");
    assert_eq!(fetching_task_message(0), "fetching task: id=0");
    assert_eq!(creating_task_message("hello otel"), "creating task: hello otel");
    assert_eq!(creating_task_message(""), "creating task: ");
}

#[test]
fn task_id_attribute_wraps_like_a_cast() {
    assert_eq!(task_id_attribute(1), 1);
    assert_eq!(task_id_attribute(i64::MAX as u64), i64::MAX);
    assert_eq!(task_id_attribute(1u64 << 63), i64::MIN);
    assert_eq!(task_id_attribute(u64::MAX), -1);
}

#[test]
fn simulated_latencies() {
    assert_eq!(simulated_latency_ms(Lesson::CncfSetup, Endpoint::CreateTask), 0);
    assert_eq!(simulated_latency_ms(Lesson::CncfSetup, Endpoint::GetTask), 0);
    assert_eq!(simulated_latency_ms(Lesson::OtelTraces, Endpoint::CreateTask), 20);
    assert_eq!(simulated_latency_ms(Lesson::NativeSubscriber, Endpoint::GetTask), 5);
    assert_eq!(simulated_latency_ms(Lesson::CncfDashboard, Endpoint::Health), 0);
}
