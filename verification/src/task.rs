use vstd::prelude::*;

use crate::lesson::Lesson;

verus! {

/// A task as the service hands it back to its clients.
pub struct Task {
    pub id: u64,
    pub title: String,
    pub done: bool,
}

/// The body of a request that creates a task.
pub struct CreateTask {
    pub title: String,
}

/// What the service answers for a task looked up by id: demo data that
/// echoes the id, with a note saying where the data comes from in the
/// lessons that add one.
pub struct TaskLookup {
    pub id: u64,
    pub title: String,
    pub done: bool,
    pub note: Option<String>,
}

/// The body of the health check's answer.
pub struct HealthStatus {
    pub status: String,
}

/// The health check's answer: the status is always `ok`.
pub fn health() -> (h: HealthStatus)
    ensures
        h.status@ == "ok"@,
{
    HealthStatus { status: String::from_str("ok") }
}

/// The note that a lesson attaches to the demo data of a task lookup.
pub open spec fn demo_note_of(lesson: Lesson) -> Option<Seq<char>> {
    match lesson {
        Lesson::CncfSetup => Some("static demo data"@),
        Lesson::CncfDashboard => Some("demo data with traces"@),
        Lesson::OtelInit => Some("pure otel demo - no tracing crate"@),
        Lesson::OtelLogs => Some("otel logger api - no tracing crate macros"@),
        Lesson::OtelTraces => Some("manual spans - pure otel traces"@),
        Lesson::NativeSubscriber | Lesson::NativeTraces | Lesson::NativeIntegration => None,
    }
}

/// Looks up the task `id`: the answer is static demo data that echoes the
/// requested id, titled `example task`, not done, with the lesson's note.
pub fn get_task(lesson: Lesson, id: u64) -> (t: TaskLookup)
    ensures
        t.id == id,
        t.title@ == "example task"@,
        !t.done,
        match t.note {
            Some(n) => demo_note_of(lesson) == Some(n@),
            None => demo_note_of(lesson) is None,
        },
        lesson == Lesson::CncfSetup ==> (t.note is Some && t.note.unwrap()@ == "static demo data"@),
        lesson == Lesson::CncfDashboard ==> (t.note is Some && t.note.unwrap()@ == "demo data with traces"@),
        lesson == Lesson::OtelInit ==> (t.note is Some && t.note.unwrap()@
            == "pure otel demo - no tracing crate"@),
        lesson == Lesson::OtelLogs ==> (t.note is Some && t.note.unwrap()@
            == "otel logger api - no tracing crate macros"@),
        lesson == Lesson::OtelTraces ==> (t.note is Some && t.note.unwrap()@
            == "manual spans - pure otel traces"@),
        lesson == Lesson::NativeSubscriber ==> t.note is None,
        lesson == Lesson::NativeTraces ==> t.note is None,
        lesson == Lesson::NativeIntegration ==> t.note is None,
{
    let note = match lesson {
        Lesson::CncfSetup => Some(String::from_str("static demo data")),
        Lesson::CncfDashboard => Some(String::from_str("demo data with traces")),
        Lesson::OtelInit => Some(String::from_str("pure otel demo - no tracing crate")),
        Lesson::OtelLogs => Some(String::from_str("otel logger api - no tracing crate macros")),
        Lesson::OtelTraces => Some(String::from_str("manual spans - pure otel traces")),
        Lesson::NativeSubscriber | Lesson::NativeTraces | Lesson::NativeIntegration => None,
    };
    TaskLookup { id, title: String::from_str("example task"), done: false, note }
}

/// The value that follows `c` when a 64-bit counter is advanced by one,
/// wrapping around past `u64::MAX` as an atomic `fetch_add` does.
pub open spec fn next_counter(c: u64) -> u64 {
    if c == u64::MAX {
        0
    } else {
        (c + 1) as u64
    }
}

/// Source of task ids: the id that the next created task receives.
pub struct TaskCounter {
    next_id: u64,
}

impl View for TaskCounter {
    type V = u64;

    closed spec fn view(&self) -> u64 {
        self.next_id
    }
}

impl TaskCounter {
    /// A fresh counter: the first task created receives id 1.
    pub fn new() -> (counter: Self)
        ensures
            counter@ == 1,
    {
        TaskCounter { next_id: 1 }
    }

    /// Creates a task from `payload`: it receives the counter's current value
    /// as its id, keeps the requested title, starts not done, and the counter
    /// advances by one.
    pub fn create_task(&mut self, payload: CreateTask) -> (task: Task)
        ensures
            task.id == old(self)@,
            task.title@ == payload.title@,
            !task.done,
            final(self)@ == next_counter(old(self)@),
            old(self)@ < u64::MAX ==> final(self)@ == old(self)@ + 1,
            old(self)@ == u64::MAX ==> final(self)@ == 0,
    {
        let id = self.next_id;
        self.next_id = self.next_id.wrapping_add(1);
        Task { id, title: payload.title, done: false }
    }
}

/// The counter's value after `k` tasks have been created from a counter
/// that held `start`; the `k`-th of those tasks (counting from 0) received
/// `counter_after(start, k)` as its id.
pub open spec fn counter_after(start: u64, k: nat) -> u64
    decreases k,
{
    if k == 0 {
        start
    } else {
        next_counter(counter_after(start, (k - 1) as nat))
    }
}

/// Number of distinct values a task id can take.
pub open spec fn id_space() -> int {
    0x1_0000_0000_0000_0000
}

/// After `k` creations the counter has advanced by `k`, modulo 2^64.
pub proof fn lemma_counter_after_wraps(start: u64, k: nat)
    ensures
        counter_after(start, k) as int == (start + k) % id_space(),
    decreases k,
{
    if k > 0 {
        lemma_counter_after_wraps(start, (k - 1) as nat);
        vstd::arithmetic::div_mod::lemma_add_mod_noop(start + k - 1, 1, id_space());
        vstd::arithmetic::div_mod::lemma_small_mod(1, id_space() as nat);
    } else {
        vstd::arithmetic::div_mod::lemma_small_mod(start as nat, id_space() as nat);
    }
}

/// Task ids never repeat: of any fewer than 2^64 successive creations from
/// the same counter, no two hand out the same id.
pub proof fn lemma_ids_distinct(start: u64, i: nat, j: nat)
    requires
        i < j,
        j < id_space(),
    ensures
        counter_after(start, i) != counter_after(start, j),
{
    lemma_counter_after_wraps(start, i);
    lemma_counter_after_wraps(start, j);
    if (start + i) % id_space() == (start + j) % id_space() {
        vstd::arithmetic::div_mod::lemma_mod_equivalence((start + j) as int, (start + i) as int, id_space());
        vstd::arithmetic::div_mod::lemma_small_mod((j - i) as nat, id_space() as nat);
        assert(false);
    }
}

/// A fresh counter hands out 1, 2, 3, ...: the `k`-th task created (counting
/// from 0) receives id `k + 1`, as long as the ids have not run past `u64::MAX`.
pub proof fn lemma_fresh_ids_count_from_one(k: nat)
    requires
        k < u64::MAX,
    ensures
        counter_after(1, k) == k + 1,
{
    lemma_counter_after_wraps(1, k);
    vstd::arithmetic::div_mod::lemma_small_mod((1 + k) as nat, id_space() as nat);
}

/// Ids from a fresh counter increase strictly with each creation, until they
/// reach `u64::MAX`.
pub proof fn lemma_fresh_ids_increase(i: nat, j: nat)
    requires
        i < j < u64::MAX,
    ensures
        counter_after(1, i) < counter_after(1, j),
{
    lemma_fresh_ids_count_from_one(i);
    lemma_fresh_ids_count_from_one(j);
}

} // verus!
