//! The start-up sequence of a run: open the capture stream if the run needs
//! one, prepare the rendering stage, and only then start the frame loop.
//!
//! The host does the work of each step and reports how it went. A failure at
//! any step ends start-up for good, and the frame loop is never started.

use vstd::prelude::*;
use crate::error::{CaptureError, RunError, SetupError};
use crate::scheduler::{
    lemma_unstarted_stays_idle, Action, Event, FrameScheduler, SchedulerView,
};

verus! {

/// Where the audio of a run comes from.
#[derive(Clone, Copy, Debug, PartialEq, Eq, Structural)]
pub enum AudioSource {
    /// The run synthesizes its audio and needs no capture device.
    Synthesis,
    /// The run analyses audio captured from an input device.
    Capture,
}

/// How far start-up has come.
#[derive(Clone, Copy, Debug, PartialEq, Eq, Structural)]
pub enum Startup {
    /// Waiting for the host to grant or deny the capture stream.
    AwaitingStream,
    /// Waiting for the rendering stage to be prepared.
    AwaitingSetup,
    /// Every step has succeeded.
    Ready,
    /// A step has failed, with this error.
    Failed(RunError),
}

/// What the host has to do next during start-up.
#[derive(Clone, Copy, Debug, PartialEq, Eq, Structural)]
pub enum StartupStep {
    /// Ask for the capture stream and report with `stream_resolved`.
    AcquireStream,
    /// Prepare the rendering stage and report with `setup_resolved`.
    PrepareRendering,
    /// Start the frame loop with `launch`.
    StartLoop,
    /// Give up and report this error.
    Abort(RunError),
}

impl Startup {
    /// The first stage: a run that captures audio waits for its stream, and a
    /// run that synthesizes goes straight to preparing the rendering stage.
    pub open spec fn spec_begin(source: AudioSource) -> Startup {
        match source {
            AudioSource::Capture => Startup::AwaitingStream,
            AudioSource::Synthesis => Startup::AwaitingSetup,
        }
    }

    /// The first stage of start-up for a run with the given audio source.
    #[verifier::when_used_as_spec(spec_begin)]
    pub fn begin(source: AudioSource) -> (startup: Startup)
        ensures
            startup == Startup::spec_begin(source),
    {
        match source {
            AudioSource::Capture => Startup::AwaitingStream,
            AudioSource::Synthesis => Startup::AwaitingSetup,
        }
    }

    /// What the host has to do at this stage.
    pub open spec fn spec_next_step(&self) -> StartupStep {
        match *self {
            Startup::AwaitingStream => StartupStep::AcquireStream,
            Startup::AwaitingSetup => StartupStep::PrepareRendering,
            Startup::Ready => StartupStep::StartLoop,
            Startup::Failed(error) => StartupStep::Abort(error),
        }
    }

    /// What the host has to do at this stage.
    #[verifier::when_used_as_spec(spec_next_step)]
    pub fn next_step(&self) -> (step: StartupStep)
        ensures
            step == self.spec_next_step(),
    {
        match *self {
            Startup::AwaitingStream => StartupStep::AcquireStream,
            Startup::AwaitingSetup => StartupStep::PrepareRendering,
            Startup::Ready => StartupStep::StartLoop,
            Startup::Failed(error) => StartupStep::Abort(error),
        }
    }

    /// The stage after the host's answer on the capture stream. Only a run
    /// that waits for its stream takes note of it: a granted stream moves it
    /// on to preparing the rendering stage, a denied one fails it.
    pub open spec fn spec_stream_resolved(&self, outcome: Result<(), CaptureError>) -> Startup {
        match *self {
            Startup::AwaitingStream => match outcome {
                Ok(_) => Startup::AwaitingSetup,
                Err(error) => Startup::Failed(RunError::Capture(error)),
            },
            _ => *self,
        }
    }

    /// The stage after the host's answer on the capture stream.
    #[verifier::when_used_as_spec(spec_stream_resolved)]
    pub fn stream_resolved(&self, outcome: Result<(), CaptureError>) -> (next: Startup)
        ensures
            next == self.spec_stream_resolved(outcome),
    {
        match *self {
            Startup::AwaitingStream => match outcome {
                Ok(_) => Startup::AwaitingSetup,
                Err(error) => Startup::Failed(RunError::Capture(error)),
            },
            _ => *self,
        }
    }

    /// The stage after the rendering stage was prepared, or could not be.
    /// Only a run that waits for it takes note.
    pub open spec fn spec_setup_resolved(&self, outcome: Result<(), SetupError>) -> Startup {
        match *self {
            Startup::AwaitingSetup => match outcome {
                Ok(_) => Startup::Ready,
                Err(error) => Startup::Failed(RunError::Setup(error)),
            },
            _ => *self,
        }
    }

    /// The stage after the rendering stage was prepared, or could not be.
    #[verifier::when_used_as_spec(spec_setup_resolved)]
    pub fn setup_resolved(&self, outcome: Result<(), SetupError>) -> (next: Startup)
        ensures
            next == self.spec_setup_resolved(outcome),
    {
        match *self {
            Startup::AwaitingSetup => match outcome {
                Ok(_) => Startup::Ready,
                Err(error) => Startup::Failed(RunError::Setup(error)),
            },
            _ => *self,
        }
    }
}

/// What `launch` does to the scheduler and answers: after a start-up that is
/// ready, what `Start` does; after one that failed, nothing and the error;
/// while start-up is under way, nothing.
pub open spec fn spec_launch(startup: Startup, scheduler: SchedulerView) -> (
    SchedulerView,
    Result<Action, RunError>,
) {
    match startup {
        Startup::Ready => (scheduler.on_start().0, Ok(scheduler.on_start().1)),
        Startup::Failed(error) => (scheduler, Err(error)),
        _ => (scheduler, Ok(Action::Nothing)),
    }
}

/// Starts the frame loop if, and only if, start-up has succeeded.
pub fn launch(startup: Startup, scheduler: &mut FrameScheduler) -> (result: Result<
    Action,
    RunError,
>)
    ensures
        final(scheduler)@ == spec_launch(startup, old(scheduler)@).0,
        result == spec_launch(startup, old(scheduler)@).1,
{
    match startup {
        Startup::Ready => Ok(scheduler.start()),
        Startup::Failed(error) => Err(error),
        _ => Ok(Action::Nothing),
    }
}

/// A run that synthesizes its audio is untouched by whatever becomes of a
/// capture stream, at its first stage and at every later one.
pub proof fn lemma_synthesis_ignores_capture(
    outcome: Result<(), CaptureError>,
    setup: Result<(), SetupError>,
)
    ensures
        Startup::spec_begin(AudioSource::Synthesis).spec_stream_resolved(outcome)
            == Startup::spec_begin(AudioSource::Synthesis),
        Startup::spec_begin(AudioSource::Synthesis).spec_setup_resolved(
            setup,
        ).spec_stream_resolved(outcome) == Startup::spec_begin(
            AudioSource::Synthesis,
        ).spec_setup_resolved(setup),
{
}

/// A failed start-up stays failed with the same error whatever is reported
/// afterwards, and `launch` then leaves the scheduler as it was.
pub proof fn lemma_failed_startup_is_final(
    error: RunError,
    stream: Result<(), CaptureError>,
    setup: Result<(), SetupError>,
    scheduler: SchedulerView,
)
    ensures
        Startup::Failed(error).spec_stream_resolved(stream) == Startup::Failed(error),
        Startup::Failed(error).spec_setup_resolved(setup) == Startup::Failed(error),
        spec_launch(Startup::Failed(error), scheduler) == (scheduler, Err::<Action, RunError>(error)),
{
}

/// A run whose capture stream was denied never starts its frame loop. Start-up
/// has failed with the capture error, launching leaves an idle scheduler as it
/// was, and whatever the host reports to that scheduler afterwards, it stays
/// idle, asks for nothing, and records no failed frame.
pub proof fn lemma_denied_capture_never_schedules(
    error: CaptureError,
    scheduler: SchedulerView,
    events: Seq<Event>,
)
    requires
        scheduler.state is Idle,
        scheduler.cause is None,
        forall|i: int| 0 <= i < events.len() ==> !(events[i] is Start),
    ensures
        ({
            let startup = Startup::spec_begin(AudioSource::Capture).spec_stream_resolved(
                Err(error),
            );
            let launched = spec_launch(startup, scheduler);
            &&& startup == Startup::Failed(RunError::Capture(error))
            &&& startup.spec_next_step() == StartupStep::Abort(RunError::Capture(error))
            &&& launched.0 == scheduler
            &&& launched.1 == Err::<Action, RunError>(RunError::Capture(error))
            &&& launched.0.run(events).state is Idle
            &&& launched.0.run(events).cause is None
            &&& forall|i: int|
                0 <= i < events.len() ==> launched.0.action_at(events, i) == Action::Nothing
        }),
{
    lemma_unstarted_stays_idle(scheduler, events);
}

} // verus!
