use learn_tracing::lesson::Lesson;
use learn_tracing::task::{get_task, health, CreateTask, TaskCounter};

fn payload(title: &str) -> CreateTask {
    CreateTask { title: title.to_string() }
}

#[test]
fn health_reports_ok() {
    assert_eq!(health().status, "ok");
}

#[test]
fn first_created_task_gets_id_one() {
    let mut counter = TaskCounter::new();
    let task = counter.create_task(payload("learn tracing"));
    assert_eq!(task.id, 1);
    assert_eq!(task.title, "learn tracing");
    assert!(!task.done);
}

#[test]
fn successive_tasks_get_consecutive_ids() {
    let mut counter = TaskCounter::new();
    let ids: Vec<u64> = (0..5)
        .map(|i| counter.create_task(payload(&format!("task {}", i))).id)
        .collect();
    assert_eq!(ids, vec![1, 2, 3, 4, 5]);
}

#[test]
fn created_task_keeps_an_empty_title() {
    let mut counter = TaskCounter::new();
    let task = counter.create_task(payload(""));
    assert_eq!(task.title, "");
    assert_eq!(task.id, 1);
}

#[test]
fn counters_are_independent() {
    let mut a = TaskCounter::new();
    let mut b = TaskCounter::new();
    assert_eq!(a.create_task(payload("a")).id, 1);
    assert_eq!(a.create_task(payload("a")).id, 2);
    assert_eq!(b.create_task(payload("b")).id, 1);
}

#[test]
fn setup_lesson_looks_up_static_demo_data() {
    let t = get_task(Lesson::CncfSetup, 42);
    assert_eq!(t.id, 42);
    assert_eq!(t.title, "example task");
    assert!(!t.done);
    assert_eq!(t.note.as_deref(), Some("static demo data"));
}

#[test]
fn otel_init_lesson_note() {
    let t = get_task(Lesson::OtelInit, 42);
    assert_eq!(t.id, 42);
    assert_eq!(t.note.as_deref(), Some("pure otel demo - no tracing crate"));
}

#[test]
fn lookup_notes_of_every_lesson() {
    assert_eq!(get_task(Lesson::CncfDashboard, 1).note.as_deref(), Some("demo data with traces"));
    assert_eq!(
        get_task(Lesson::OtelLogs, 1).note.as_deref(),
        Some("otel logger api - no tracing crate macros")
    );
    assert_eq!(
        get_task(Lesson::OtelTraces, 1).note.as_deref(),
        Some("manual spans - pure otel traces")
    );
    assert_eq!(get_task(Lesson::NativeSubscriber, 1).note, None);
    assert_eq!(get_task(Lesson::NativeTraces, 1).note, None);
    assert_eq!(get_task(Lesson::NativeIntegration, 1).note, None);
}

#[test]
fn lookup_echoes_extreme_ids() {
    assert_eq!(get_task(Lesson::NativeTraces, 0).id, 0);
    assert_eq!(get_task(Lesson::NativeTraces, u64::MAX).id, u64::MAX);
}
