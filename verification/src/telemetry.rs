use vstd::prelude::*;

use crate::decimal::{decimal, digits_value, is_numeral, push_decimal};
use crate::lesson::Lesson;

verus! {

/// The HTTP endpoints of the task service.
#[derive(Clone, Copy, PartialEq, Eq, Structural, Debug)]
pub enum Endpoint {
    /// `GET /health`
    Health,
    /// `POST /tasks`
    CreateTask,
    /// `GET /tasks/{id}`
    GetTask,
}

/// The HTTP method of an endpoint.
pub open spec fn method_of(endpoint: Endpoint) -> Seq<char> {
    match endpoint {
        Endpoint::CreateTask => "POST"@,
        _ => "GET"@,
    }
}

/// The route of an endpoint as telemetry labels it (path parameters written
/// `:name`).
pub open spec fn route_of(endpoint: Endpoint) -> Seq<char> {
    match endpoint {
        Endpoint::Health => "/health"@,
        Endpoint::CreateTask => "/tasks"@,
        Endpoint::GetTask => "/tasks/:id"@,
    }
}

/// The HTTP method of an endpoint: `POST` for task creation, `GET` otherwise.
pub fn http_method(endpoint: Endpoint) -> (method: String)
    ensures
        method@ == method_of(endpoint),
        endpoint == Endpoint::CreateTask ==> method@ == "POST"@,
        endpoint != Endpoint::CreateTask ==> method@ == "GET"@,
{
    match endpoint {
        Endpoint::CreateTask => String::from_str("POST"),
        _ => String::from_str("GET"),
    }
}

/// The route label of an endpoint: `/health`, `/tasks` or `/tasks/:id`.
pub fn route_label(endpoint: Endpoint) -> (route: String)
    ensures
        route@ == route_of(endpoint),
        endpoint == Endpoint::Health ==> route@ == "/health"@,
        endpoint == Endpoint::CreateTask ==> route@ == "/tasks"@,
        endpoint == Endpoint::GetTask ==> route@ == "/tasks/:id"@,
{
    match endpoint {
        Endpoint::Health => String::from_str("/health"),
        Endpoint::CreateTask => String::from_str("/tasks"),
        Endpoint::GetTask => String::from_str("/tasks/:id"),
    }
}

/// The name of the server span that covers a request: the method, a space,
/// and the route, such as `POST /tasks`.
pub fn span_name(endpoint: Endpoint) -> (name: String)
    ensures
        name@ == method_of(endpoint) + " "@ + route_of(endpoint),
        endpoint == Endpoint::Health ==> name@ == "GET /health"@,
        endpoint == Endpoint::CreateTask ==> name@ == "POST /tasks"@,
        endpoint == Endpoint::GetTask ==> name@ == "GET /tasks/:id"@,
{
    proof {
        reveal_strlit("GET");
        reveal_strlit("POST");
        reveal_strlit(" ");
        reveal_strlit("/health");
        reveal_strlit("/tasks");
        reveal_strlit("/tasks/:id");
        reveal_strlit("GET /health");
        reveal_strlit("POST /tasks");
        reveal_strlit("GET /tasks/:id");
        assert("GET"@ + " "@ + "/health"@ =~= "GET /health"@);
        assert("POST"@ + " "@ + "/tasks"@ =~= "POST /tasks"@);
        assert("GET"@ + " "@ + "/tasks/:id"@ =~= "GET /tasks/:id"@);
    }
    let mut name = http_method(endpoint);
    name.append(" ");
    let route = route_label(endpoint);
    name.append(route.as_str());
    name
}

/// The attributes recorded with the request counter and the duration
/// histogram: `method` and `route`, in that order.
pub fn request_attributes(endpoint: Endpoint) -> (attrs: Vec<(String, String)>)
    ensures
        attrs@.len() == 2,
        attrs@[0].0@ == "method"@,
        attrs@[0].1@ == method_of(endpoint),
        attrs@[1].0@ == "route"@,
        attrs@[1].1@ == route_of(endpoint),
        endpoint == Endpoint::CreateTask ==> attrs@[0].1@ == "POST"@ && attrs@[1].1@ == "/tasks"@,
        endpoint == Endpoint::GetTask ==> attrs@[0].1@ == "GET"@ && attrs@[1].1@ == "/tasks/:id"@,
        endpoint == Endpoint::Health ==> attrs@[0].1@ == "GET"@ && attrs@[1].1@ == "/health"@,
{
    let mut attrs: Vec<(String, String)> = Vec::new();
    attrs.push((String::from_str("method"), http_method(endpoint)));
    attrs.push((String::from_str("route"), route_label(endpoint)));
    attrs
}

/// The `endpoint` label of the Prometheus metrics: the handler's name.
pub open spec fn metric_endpoint_of(endpoint: Endpoint) -> Seq<char> {
    match endpoint {
        Endpoint::Health => "health"@,
        Endpoint::CreateTask => "create_task"@,
        Endpoint::GetTask => "get_task"@,
    }
}

/// The `endpoint` label of the Prometheus metrics: `health`, `create_task`
/// or `get_task`.
pub fn metric_endpoint_label(endpoint: Endpoint) -> (label: String)
    ensures
        label@ == metric_endpoint_of(endpoint),
        endpoint == Endpoint::Health ==> label@ == "health"@,
        endpoint == Endpoint::CreateTask ==> label@ == "create_task"@,
        endpoint == Endpoint::GetTask ==> label@ == "get_task"@,
{
    match endpoint {
        Endpoint::Health => String::from_str("health"),
        Endpoint::CreateTask => String::from_str("create_task"),
        Endpoint::GetTask => String::from_str("get_task"),
    }
}

/// How long, in milliseconds, a lesson's handler waits to stand in for real
/// work before it answers.
pub open spec fn latency_of(lesson: Lesson, endpoint: Endpoint) -> u64 {
    if lesson == Lesson::CncfSetup {
        0
    } else {
        match endpoint {
            Endpoint::Health => 0,
            Endpoint::CreateTask => 20,
            Endpoint::GetTask => 5,
        }
    }
}

/// How long, in milliseconds, a lesson's handler waits before it answers:
/// 20 ms to create a task, 5 ms to fetch one, none for the health check and
/// none at all in the setup lesson.
pub fn simulated_latency_ms(lesson: Lesson, endpoint: Endpoint) -> (ms: u64)
    ensures
        ms == latency_of(lesson, endpoint),
        lesson == Lesson::CncfSetup ==> ms == 0,
        endpoint == Endpoint::Health ==> ms == 0,
        lesson != Lesson::CncfSetup && endpoint == Endpoint::CreateTask ==> ms == 20,
        lesson != Lesson::CncfSetup && endpoint == Endpoint::GetTask ==> ms == 5,
{
    match lesson {
        Lesson::CncfSetup => 0,
        _ => match endpoint {
            Endpoint::Health => 0,
            Endpoint::CreateTask => 20,
            Endpoint::GetTask => 5,
        },
    }
}

/// `prefix` followed by the decimal representation of `id`.
fn prefixed_id(prefix: &str, id: u64) -> (msg: String)
    ensures
        msg@ == prefix@ + decimal(id as nat),
        msg@.take(prefix@.len() as int) == prefix@,
        is_numeral(msg@.skip(prefix@.len() as int)),
        digits_value(msg@.skip(prefix@.len() as int)) == id,
{
    let mut msg = String::from_str(prefix);
    push_decimal(&mut msg, id);
    msg
}

/// The log message of a created task: `task created: id=<id>`.
pub fn task_created_message(id: u64) -> (msg: String)
    ensures
        msg@ == "task created: id="@ + decimal(id as nat),
        msg@.take(17) == "task created: id="@,
        is_numeral(msg@.skip(17)),
        digits_value(msg@.skip(17)) == id,
{
    proof {
        reveal_strlit("task created: id=");
    }
    prefixed_id("task created: id=", id)
}

/// The log message of a fetched task: `task fetched: id=<id>`.
pub fn task_fetched_message(id: u64) -> (msg: String)
    ensures
        msg@ == "task fetched: id="@ + decimal(id as nat),
        msg@.take(17) == "task fetched: id="@,
        is_numeral(msg@.skip(17)),
        digits_value(msg@.skip(17)) == id,
{
    proof {
        reveal_strlit("task fetched: id=");
    }
    prefixed_id("task fetched: id=", id)
}

/// The console line printed before a task is fetched: `fetching task: id=<id>`.
pub fn fetching_task_message(id: u64) -> (msg: String)
    ensures
        msg@ == "fetching task: id="@ + decimal(id as nat),
        msg@.take(18) == "fetching task: id="@,
        is_numeral(msg@.skip(18)),
        digits_value(msg@.skip(18)) == id,
{
    proof {
        reveal_strlit("fetching task: id=");
    }
    prefixed_id("fetching task: id=", id)
}

/// The console line printed before a task is created:
/// `creating task: <title>`.
pub fn creating_task_message(title: &str) -> (msg: String)
    ensures
        msg@ == "creating task: "@ + title@,
{
    let mut msg = String::from_str("creating task: ");
    msg.append(title);
    msg
}

/// The value of the integer attribute `task.id`: the id reinterpreted as a
/// signed 64-bit integer, as an `as i64` cast does, so ids above `i64::MAX`
/// come out negative.
pub fn task_id_attribute(id: u64) -> (value: i64)
    ensures
        value as int == if id <= i64::MAX { id as int } else { id - 0x1_0000_0000_0000_0000 },
{
    let value = id as i64;
    assert(value as int == if id <= i64::MAX { id as int } else { id - 0x1_0000_0000_0000_0000 }) by (bit_vector)
        requires
            value == id as i64,
    ;
    value
}

} // verus!
