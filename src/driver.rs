use vstd::prelude::*;
use crate::document::JobError;
use crate::event::{filter_event, job_path_of, ChangeEvent, UploadJob};

verus! {

/// Where the watch loop stands.
#[derive(Clone, Copy, Debug, PartialEq, Eq, Structural)]
pub enum DriverState {
    /// The watcher is not set up yet.
    Idle,
    /// Events are being taken one at a time.
    Watching,
    /// The watcher could not be set up; nothing more happens.
    Failed,
}

/// What the loop hands the driver.
#[derive(Debug)]
pub enum DriverInput {
    /// The watcher was set up on the directory.
    SetupSucceeded,
    /// The watcher could not be set up; holds the reason.
    SetupFailed(String),
    /// The watcher delivered an event.
    Event(ChangeEvent),
    /// The notification channel reported an error; holds the reason.
    StreamError(String),
    /// A job ran to its end, with an identifier or an error.
    JobFinished(Result<String, JobError>),
}

/// What the loop is to do next.
#[derive(Clone, Debug)]
pub enum DriverAction {
    /// Wait for the next event.
    Wait,
    /// Read the job's file and upload it, then report how that ended.
    Upload(UploadJob),
    /// Report the input (a stream error or a job's end), then wait.
    Report,
    /// Report the input and leave the loop.
    Stop,
}

/// The state after `input` in state `s`.
pub open spec fn next_state(s: DriverState, input: DriverInput) -> DriverState {
    match s {
        DriverState::Idle => match input {
            DriverInput::SetupSucceeded => DriverState::Watching,
            DriverInput::SetupFailed(_) => DriverState::Failed,
            _ => DriverState::Idle,
        },
        _ => s,
    }
}

/// What is done on `input` in state `s`: only a creation seen while
/// watching starts a job, and a failed setup ends the loop.
pub open spec fn action_is(s: DriverState, input: DriverInput, a: DriverAction) -> bool {
    match s {
        DriverState::Failed => a is Stop,
        DriverState::Idle => match input {
            DriverInput::SetupFailed(_) => a is Stop,
            _ => a is Wait,
        },
        DriverState::Watching => match input {
            DriverInput::Event(e) => match job_path_of(e) {
                Some(p) => a matches DriverAction::Upload(j) && j.absolute_path@ == p,
                None => a is Wait,
            },
            DriverInput::StreamError(_) => a is Report,
            DriverInput::JobFinished(_) => a is Report,
            _ => a is Wait,
        },
    }
}

/// One decision of the watch loop.
pub fn driver_step(s: DriverState, input: DriverInput) -> (r: (DriverState, DriverAction))
    ensures
        r.0 == next_state(s, input),
        action_is(s, input, r.1),
{
    match s {
        DriverState::Failed => (DriverState::Failed, DriverAction::Stop),
        DriverState::Idle => match input {
            DriverInput::SetupSucceeded => (DriverState::Watching, DriverAction::Wait),
            DriverInput::SetupFailed(_) => (DriverState::Failed, DriverAction::Stop),
            _ => (DriverState::Idle, DriverAction::Wait),
        },
        DriverState::Watching => match input {
            DriverInput::Event(e) => match filter_event(e) {
                Some(j) => (DriverState::Watching, DriverAction::Upload(j)),
                None => (DriverState::Watching, DriverAction::Wait),
            },
            DriverInput::StreamError(_) => (DriverState::Watching, DriverAction::Report),
            DriverInput::JobFinished(_) => (DriverState::Watching, DriverAction::Report),
            _ => (DriverState::Watching, DriverAction::Wait),
        },
    }
}

/// A job that ends in any error leaves the loop watching, and a file created
/// afterwards is still uploaded.
pub proof fn lemma_job_failure_isolated(e: JobError, later: Seq<char>, later_path: String)
    requires
        later_path@ == later,
    ensures
        next_state(DriverState::Watching, DriverInput::JobFinished(Err(e))) == DriverState::Watching,
        forall|a: DriverAction|
            action_is(
                next_state(DriverState::Watching, DriverInput::JobFinished(Err(e))),
                DriverInput::Event(ChangeEvent::Created(later_path)),
                a,
            ) <==> (a matches DriverAction::Upload(j) && j.absolute_path@ == later),
{
}

/// While watching, an error of the notification channel is reported and the
/// loop keeps watching.
pub proof fn lemma_stream_error_keeps_watching(reason: String)
    ensures
        next_state(DriverState::Watching, DriverInput::StreamError(reason)) == DriverState::Watching,
        forall|a: DriverAction|
            action_is(DriverState::Watching, DriverInput::StreamError(reason), a) <==> a is Report,
{
}

/// A modification, removal or rename never starts a job.
pub proof fn lemma_only_creation_uploads(s: DriverState, e: ChangeEvent, a: DriverAction)
    requires
        !(e is Created),
        action_is(s, DriverInput::Event(e), a),
    ensures
        !(a is Upload),
{
}

} // verus!
