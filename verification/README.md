# learn_tracing

A small task service (`GET /health`, `POST /tasks`, `GET /tasks/{id}`) run
with eight different observability stacks: plain HTTP, `tracing` JSON logs,
`tracing` spans over OTLP, Prometheus metrics, and the OpenTelemetry SDK's
own logger, meter and tracer.

- `src/` is the verified library (Verus):
  - `task.rs`: the task model, the id counter and its laws (ids count from 1,
    advance by one, wrap like `fetch_add`, never repeat within 2^64 creations),
    the health answer and the demo lookup.
  - `lesson.rs`: the eight lessons and their addresses, service names, OTLP
    endpoint and instrumentation scope.
  - `telemetry.rs`: endpoint methods, routes, span names, metric attributes
    and labels, log messages and the simulated handler latency.
  - `decimal.rs`: verified decimal formatting of `u64`.
- `app/` is the server: argument handling, axum routing, JSON, exporter and
  subscriber set-up, and the telemetry calls themselves.
- `tests/` runs the library on the documented requests and answers.

Run a lesson with `learn_tracing <lesson>`, where `<lesson>` is one of
`cncf-setup`, `cncf-dashboard`, `native-subscriber`, `native-traces`,
`native-integration`, `otel-init`, `otel-logs`, `otel-traces`.
