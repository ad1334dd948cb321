//! One upscale job and the events and notifications of its lifecycle. The
//! subprocess itself is owned by the caller, which reports what it observed
//! as a `PollEvent`; the engine decides the state transition and what, if
//! anything, to tell the result sink.

use vstd::prelude::*;

use crate::builder::Invocation;
use crate::builder::SourceImage;
use crate::builder::UpscaleOptions;
use crate::error::Error;

verus! {

/// The lifecycle of a job. `Succeeded` and `Failed` are terminal and are
/// observed exactly once, after which the job is dropped.
#[derive(Debug)]
pub enum JobState {
    NotStarted,
    Running,
    Succeeded(String),
    Failed(Error),
}

/// What the caller observed of the subprocess since the last poll: still
/// running, exited with a status code and captured diagnostic text, or never
/// started at all.
#[derive(Debug)]
pub enum PollEvent {
    StillRunning,
    Exited(i32, String),
    SpawnFailed(String),
}

/// The one terminal message a job delivers to the result sink.
#[derive(Debug)]
pub enum Notification {
    Succeeded(String),
    Failed(Error),
}

/// One subprocess invocation in flight.
#[derive(Debug)]
pub struct Job {
    pub id: u64,
    pub command: Invocation,
    pub source_image: SourceImage,
    pub options_snapshot: UpscaleOptions,
    pub started_at: u64,
    pub state: JobState,
}

/// Whether an event ends the job it is applied to.
pub open spec fn is_terminal_event(e: PollEvent) -> bool {
    !(e is StillRunning)
}

/// The failure reason reported when the subprocess exited with a non-zero
/// status; `diag` is the captured diagnostic text.
pub open spec fn nonzero_exit_reason(diag: Seq<char>) -> Seq<char> {
    "the upscaler exited with a non-zero status. "@ + diag
}

/// The failure reason reported when the subprocess could not be started.
pub open spec fn spawn_failure_reason(diag: Seq<char>) -> Seq<char> {
    "the upscaler could not be started. "@ + diag
}

/// The failure reason reported when the caller cancelled the job.
pub open spec fn cancelled_reason() -> Seq<char> {
    "the job was cancelled before the upscaler finished."@
}

/// How many notifications a run of the engine delivers: starting with or
/// without a job in flight (`busy`), one event per poll, a busy engine
/// notifies exactly when the event is terminal and is idle afterwards. This
/// mirrors the contract of `Upscale::update`.
pub open spec fn notifications_in_run(busy: bool, events: Seq<PollEvent>) -> nat
    decreases events.len(),
{
    if events.len() == 0 {
        0
    } else if busy && is_terminal_event(events.first()) {
        1 + notifications_in_run(false, events.drop_first())
    } else {
        notifications_in_run(busy, events.drop_first())
    }
}

/// Every submitted job yields at most one terminal notification, and exactly
/// one as soon as any terminal event is observed — never zero, never more —
/// while an idle engine never notifies at all.
pub proof fn lemma_exactly_one_notification(events: Seq<PollEvent>)
    ensures
        notifications_in_run(false, events) == 0,
        notifications_in_run(true, events) <= 1,
        (exists|i: int| 0 <= i < events.len() && is_terminal_event(events[i]))
            ==> notifications_in_run(true, events) == 1,
    decreases events.len(),
{
    if events.len() > 0 {
        lemma_exactly_one_notification(events.drop_first());
        if exists|i: int| 0 <= i < events.len() && is_terminal_event(events[i]) {
            if !is_terminal_event(events.first()) {
                let i = choose|i: int| 0 <= i < events.len() && is_terminal_event(events[i]);
                assert(events.drop_first()[i - 1] == events[i]);
            }
        }
    }
}

} // verus!
