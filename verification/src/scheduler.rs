//! The frame scheduler: a cancellable loop of ticks, kept as an explicit state
//! machine.
//!
//! The host owns the frame timer and does the frame's work. It tells the
//! scheduler what happened ([`Event`]) and does what the scheduler answers
//! ([`Action`]). The scheduler never calls the host.

use vstd::prelude::*;
use crate::error::FrameError;

verus! {

/// Where the scheduler stands in its life.
#[derive(Clone, Copy, Debug, PartialEq, Eq, Structural)]
pub enum SchedulerState {
    /// Not started yet.
    Idle,
    /// A tick is pending with the host's frame timer.
    Scheduled,
    /// The tick's callback is executing.
    Running,
    /// Terminal. Nothing is scheduled any more.
    Stopped,
}

/// Why a scheduler stopped.
#[derive(Clone, Copy, Debug, PartialEq, Eq, Structural)]
pub enum StopCause {
    /// A stop was requested from outside.
    Cancelled,
    /// The budget of frames is used up.
    FrameBudget,
    /// The budget of elapsed time is used up.
    TimeBudget,
    /// A frame's work failed.
    Failed(FrameError),
}

/// Optional limits on a run. A limit is looked at when a frame has completed,
/// so even the tightest budget lets the first frame run.
#[derive(Clone, Copy, Debug, PartialEq, Eq)]
pub struct Budget {
    /// Stop once this many frames have completed.
    pub max_frames: Option<u64>,
    /// Stop after a frame whose tick came at or after this elapsed time.
    pub max_elapsed_ms: Option<u64>,
}

/// What the host reports to the scheduler.
#[derive(Clone, Copy, Debug, PartialEq, Eq)]
pub enum Event {
    /// Start-up is complete: begin the loop.
    Start,
    /// Someone asked for the loop to end.
    Stop,
    /// The frame timer fired, at this elapsed time in milliseconds.
    Tick(u64),
    /// The frame's work has returned.
    FrameDone(Result<(), FrameError>),
}

/// What the host has to do in answer to an event.
#[derive(Clone, Copy, Debug, PartialEq, Eq, Structural)]
pub enum Action {
    /// Ask the frame timer for one more tick.
    RequestTick,
    /// Do one frame's work now, then report `FrameDone`.
    RunFrame,
    /// The loop has ended in good order: release what it held.
    Release,
    /// The loop has ended on this error: release what it held and report it.
    Fail(FrameError),
    /// The event changes nothing.
    Nothing,
}

/// The scheduler as a mathematical value.
pub struct SchedulerView {
    pub state: SchedulerState,
    pub stop_requested: bool,
    /// Frames completed without error.
    pub frames: u64,
    /// Elapsed time given with the latest accepted tick.
    pub elapsed_ms: u64,
    pub budget: Budget,
    pub cause: Option<StopCause>,
}

impl Budget {
    /// No limit at all: the loop runs until it is stopped or fails.
    pub open spec fn spec_unlimited() -> Budget {
        Budget { max_frames: None, max_elapsed_ms: None }
    }

    /// No limit at all: the loop runs until it is stopped or fails.
    #[verifier::when_used_as_spec(spec_unlimited)]
    pub fn unlimited() -> (budget: Budget)
        ensures
            budget == Budget::spec_unlimited(),
    {
        Budget { max_frames: None, max_elapsed_ms: None }
    }
}

impl SchedulerView {
    /// A scheduler that has not been started.
    pub open spec fn initial(budget: Budget) -> SchedulerView {
        SchedulerView {
            state: SchedulerState::Idle,
            stop_requested: false,
            frames: 0,
            elapsed_ms: 0,
            budget,
            cause: None,
        }
    }

    /// What every scheduler satisfies: it has a cause exactly when it has
    /// stopped, and it has seen no tick and completed no frame before it was
    /// started.
    pub open spec fn inv(self) -> bool {
        &&& self.state is Stopped <==> self.cause is Some
        &&& self.state is Idle ==> self.frames == 0 && self.elapsed_ms == 0
    }

    /// True between `Start` and the end of the loop.
    pub open spec fn mid_run(self) -> bool {
        self.state is Scheduled || self.state is Running
    }

    /// The reason to end the loop that holds now, if any. A stop request goes
    /// before the frame budget, and the frame budget before the time budget.
    pub open spec fn due(self) -> Option<StopCause> {
        if self.stop_requested {
            Some(StopCause::Cancelled)
        } else if self.budget.max_frames is Some && self.frames >= self.budget.max_frames->0 {
            Some(StopCause::FrameBudget)
        } else if self.budget.max_elapsed_ms is Some && self.elapsed_ms
            >= self.budget.max_elapsed_ms->0 {
            Some(StopCause::TimeBudget)
        } else {
            None
        }
    }

    /// The frame counter after one more frame. It stays at its largest value
    /// once it has reached it.
    pub open spec fn counted(self) -> u64 {
        if self.frames < u64::MAX {
            (self.frames + 1) as u64
        } else {
            self.frames
        }
    }

    /// `Start`: an idle scheduler asks for its first tick. Any other ignores it.
    pub open spec fn on_start(self) -> (SchedulerView, Action) {
        if self.state is Idle {
            (SchedulerView { state: SchedulerState::Scheduled, ..self }, Action::RequestTick)
        } else {
            (self, Action::Nothing)
        }
    }

    /// `Stop`: the request is noted. It takes effect when the frame in progress,
    /// or the next one, has completed. A stopped scheduler ignores it.
    pub open spec fn on_stop(self) -> (SchedulerView, Action) {
        if self.state is Stopped {
            (self, Action::Nothing)
        } else {
            (SchedulerView { stop_requested: true, ..self }, Action::Nothing)
        }
    }

    /// `Tick`: a scheduled scheduler starts running and has the frame's work
    /// done. In any other state the tick is ignored, so no frame starts while
    /// another is running.
    pub open spec fn on_tick(self, elapsed_ms: u64) -> (SchedulerView, Action) {
        if self.state is Scheduled {
            (SchedulerView { state: SchedulerState::Running, elapsed_ms, ..self }, Action::RunFrame)
        } else {
            (self, Action::Nothing)
        }
    }

    /// `FrameDone`: a running scheduler stops on a failed frame; after a good
    /// frame it stops if a reason is due, and asks for the next tick if none is.
    pub open spec fn on_frame_done(self, outcome: Result<(), FrameError>) -> (
        SchedulerView,
        Action,
    ) {
        if !(self.state is Running) {
            (self, Action::Nothing)
        } else if outcome is Err {
            let e = outcome->Err_0;
            (
                SchedulerView {
                    state: SchedulerState::Stopped,
                    cause: Some(StopCause::Failed(e)),
                    ..self
                },
                Action::Fail(e),
            )
        } else {
            let counted = SchedulerView { frames: self.counted(), ..self };
            if counted.due() is Some {
                (
                    SchedulerView { state: SchedulerState::Stopped, cause: counted.due(), ..counted },
                    Action::Release,
                )
            } else {
                (SchedulerView { state: SchedulerState::Scheduled, ..counted }, Action::RequestTick)
            }
        }
    }

    /// The transition function: the next scheduler and what the host must do.
    pub open spec fn step(self, event: Event) -> (SchedulerView, Action) {
        match event {
            Event::Start => self.on_start(),
            Event::Stop => self.on_stop(),
            Event::Tick(elapsed_ms) => self.on_tick(elapsed_ms),
            Event::FrameDone(outcome) => self.on_frame_done(outcome),
        }
    }

    /// The scheduler after a sequence of events.
    pub open spec fn run(self, events: Seq<Event>) -> SchedulerView
        decreases events.len(),
    {
        if events.len() == 0 {
            self
        } else {
            self.run(events.drop_last()).step(events.last()).0
        }
    }

    /// The answer to the event at position `i` of a sequence of events.
    pub open spec fn action_at(self, events: Seq<Event>, i: int) -> Action
        recommends
            0 <= i < events.len(),
    {
        self.run(events.take(i)).step(events[i]).1
    }
}

/// The frame scheduler. It is created idle, is started once, and once stopped
/// stays stopped: to run again, make a new one.
#[derive(Debug)]
pub struct FrameScheduler {
    state: SchedulerState,
    stop_requested: bool,
    frames: u64,
    elapsed_ms: u64,
    budget: Budget,
    cause: Option<StopCause>,
}

impl View for FrameScheduler {
    type V = SchedulerView;

    closed spec fn view(&self) -> SchedulerView {
        SchedulerView {
            state: self.state,
            stop_requested: self.stop_requested,
            frames: self.frames,
            elapsed_ms: self.elapsed_ms,
            budget: self.budget,
            cause: self.cause,
        }
    }
}

impl FrameScheduler {
    #[verifier::type_invariant]
    spec fn well_formed(self) -> bool {
        self@.inv()
    }

    /// An idle scheduler with the given budget.
    pub fn new(budget: Budget) -> (scheduler: FrameScheduler)
        ensures
            scheduler@ == SchedulerView::initial(budget),
    {
        FrameScheduler {
            state: SchedulerState::Idle,
            stop_requested: false,
            frames: 0,
            elapsed_ms: 0,
            budget,
            cause: None,
        }
    }

    /// The current state.
    pub fn state(&self) -> (state: SchedulerState)
        ensures
            state == self@.state,
            self@.inv(),
    {
        proof {
            use_type_invariant(self);
        }
        self.state
    }

    /// Whether a stop has been requested.
    pub fn stop_requested(&self) -> (requested: bool)
        ensures
            requested == self@.stop_requested,
    {
        self.stop_requested
    }

    /// The number of frames completed without error.
    pub fn frames(&self) -> (frames: u64)
        ensures
            frames == self@.frames,
    {
        self.frames
    }

    /// The elapsed time, in milliseconds, of the latest tick that was accepted.
    /// The animation phase of a frame is derived from this and from nothing else.
    pub fn elapsed_ms(&self) -> (elapsed_ms: u64)
        ensures
            elapsed_ms == self@.elapsed_ms,
    {
        self.elapsed_ms
    }

    /// Why the scheduler stopped: `Some` exactly when it has.
    pub fn cause(&self) -> (cause: Option<StopCause>)
        ensures
            cause == self@.cause,
            cause is Some <==> self@.state is Stopped,
    {
        proof {
            use_type_invariant(self);
        }
        self.cause
    }

    /// The error of the frame that ended the loop, if one did.
    pub fn failure(&self) -> (failure: Option<FrameError>)
        ensures
            failure == match self@.cause {
                Some(StopCause::Failed(e)) => Some(e),
                _ => None,
            },
            failure is Some ==> self@.state is Stopped,
    {
        proof {
            use_type_invariant(self);
        }
        match self.cause {
            Some(StopCause::Failed(e)) => Some(e),
            _ => None,
        }
    }

    /// Begins the loop.
    pub fn start(&mut self) -> (action: Action)
        ensures
            final(self)@ == old(self)@.on_start().0,
            action == old(self)@.on_start().1,
    {
        proof {
            use_type_invariant(&*self);
        }
        match self.state {
            SchedulerState::Idle => {
                self.state = SchedulerState::Scheduled;
                Action::RequestTick
            },
            _ => Action::Nothing,
        }
    }

    /// Requests the end of the loop.
    pub fn stop(&mut self) -> (action: Action)
        ensures
            final(self)@ == old(self)@.on_stop().0,
            action == old(self)@.on_stop().1,
    {
        proof {
            use_type_invariant(&*self);
        }
        match self.state {
            SchedulerState::Stopped => {},
            _ => {
                self.stop_requested = true;
            },
        }
        Action::Nothing
    }

    /// Takes the tick that the frame timer delivered at `elapsed_ms`.
    pub fn tick(&mut self, elapsed_ms: u64) -> (action: Action)
        ensures
            final(self)@ == old(self)@.on_tick(elapsed_ms).0,
            action == old(self)@.on_tick(elapsed_ms).1,
    {
        proof {
            use_type_invariant(&*self);
        }
        match self.state {
            SchedulerState::Scheduled => {
                *self = FrameScheduler {
                    state: SchedulerState::Running,
                    stop_requested: self.stop_requested,
                    frames: self.frames,
                    elapsed_ms,
                    budget: self.budget,
                    cause: self.cause,
                };
                Action::RunFrame
            },
            _ => Action::Nothing,
        }
    }

    /// The reason to end the loop that holds now, if any.
    fn due(&self) -> (due: Option<StopCause>)
        ensures
            due == self@.due(),
    {
        if self.stop_requested {
            return Some(StopCause::Cancelled);
        }
        if let Some(max_frames) = self.budget.max_frames {
            if self.frames >= max_frames {
                return Some(StopCause::FrameBudget);
            }
        }
        if let Some(max_elapsed_ms) = self.budget.max_elapsed_ms {
            if self.elapsed_ms >= max_elapsed_ms {
                return Some(StopCause::TimeBudget);
            }
        }
        None
    }

    /// Takes the outcome of the frame's work.
    pub fn frame_done(&mut self, outcome: Result<(), FrameError>) -> (action: Action)
        ensures
            final(self)@ == old(self)@.on_frame_done(outcome).0,
            action == old(self)@.on_frame_done(outcome).1,
    {
        proof {
            use_type_invariant(&*self);
        }
        match self.state {
            SchedulerState::Running => {},
            _ => {
                return Action::Nothing;
            },
        }
        match outcome {
            Err(e) => {
                *self = FrameScheduler {
                    state: SchedulerState::Stopped,
                    stop_requested: self.stop_requested,
                    frames: self.frames,
                    elapsed_ms: self.elapsed_ms,
                    budget: self.budget,
                    cause: Some(StopCause::Failed(e)),
                };
                Action::Fail(e)
            },
            Ok(()) => {
                let frames: u64 = if self.frames < u64::MAX {
                    self.frames + 1
                } else {
                    self.frames
                };
                let counted = FrameScheduler {
                    state: SchedulerState::Running,
                    stop_requested: self.stop_requested,
                    frames,
                    elapsed_ms: self.elapsed_ms,
                    budget: self.budget,
                    cause: None,
                };
                let due = counted.due();
                match due {
                    Some(cause) => {
                        *self = FrameScheduler {
                            state: SchedulerState::Stopped,
                            stop_requested: counted.stop_requested,
                            frames,
                            elapsed_ms: counted.elapsed_ms,
                            budget: counted.budget,
                            cause: Some(cause),
                        };
                        Action::Release
                    },
                    None => {
                        *self = FrameScheduler {
                            state: SchedulerState::Scheduled,
                            stop_requested: counted.stop_requested,
                            frames,
                            elapsed_ms: counted.elapsed_ms,
                            budget: counted.budget,
                            cause: None,
                        };
                        Action::RequestTick
                    },
                }
            },
        }
    }

    /// Takes one event and answers with what the host must do.
    pub fn step(&mut self, event: Event) -> (action: Action)
        ensures
            final(self)@ == old(self)@.step(event).0,
            action == old(self)@.step(event).1,
    {
        match event {
            Event::Start => self.start(),
            Event::Stop => self.stop(),
            Event::Tick(elapsed_ms) => self.tick(elapsed_ms),
            Event::FrameDone(outcome) => self.frame_done(outcome),
        }
    }
}

/// Every event keeps the invariant, and so does every sequence of events.
pub proof fn lemma_run_keeps_inv(s: SchedulerView, events: Seq<Event>)
    requires
        s.inv(),
    ensures
        s.run(events).inv(),
    decreases events.len(),
{
    if events.len() > 0 {
        lemma_run_keeps_inv(s, events.drop_last());
    }
}

/// A frame starts only from a pending tick, and a tick is requested only when
/// none is pending and no frame is running after the event: frames never
/// overlap and at most one tick is outstanding.
pub proof fn lemma_one_frame_at_a_time(s: SchedulerView, event: Event)
    ensures
        s.step(event).1 == Action::RunFrame ==> s.state is Scheduled && s.step(event).0.state
            is Running,
        s.step(event).1 == Action::RequestTick ==> !(s.state is Scheduled) && s.step(
            event,
        ).0.state is Scheduled,
        s.state is Running ==> s.step(event).1 != Action::RunFrame,
{
}

/// Stopped is terminal: a stopped scheduler is unchanged by every sequence of
/// events, and answers each of them with `Nothing`.
pub proof fn lemma_stopped_is_terminal(s: SchedulerView, events: Seq<Event>)
    requires
        s.state is Stopped,
    ensures
        s.run(events) == s,
        forall|i: int| 0 <= i < events.len() ==> s.action_at(events, i) == Action::Nothing,
    decreases events.len(),
{
    if events.len() > 0 {
        lemma_stopped_is_terminal(s, events.drop_last());
        assert forall|i: int| 0 <= i < events.len() implies s.action_at(events, i)
            == Action::Nothing by {
            lemma_stopped_is_terminal(s, events.take(i));
        }
    }
}

/// A stop requested mid-run takes effect at the next tick boundary. If a frame
/// is in progress it completes and is the last. If a tick is pending, that
/// tick still runs its frame, and that frame is the last. Either way the
/// scheduler is then stopped and no further tick is requested.
pub proof fn lemma_stop_ends_run_at_next_tick(
    s: SchedulerView,
    elapsed_ms: u64,
    outcome: Result<(), FrameError>,
)
    requires
        s.mid_run(),
    ensures
        ({
            let stopping = s.on_stop().0;
            let ticked = stopping.on_tick(elapsed_ms);
            let running = if s.state is Scheduled {
                ticked.0
            } else {
                stopping
            };
            let ended = running.on_frame_done(outcome);
            &&& s.on_stop().1 == Action::Nothing
            &&& s.state is Scheduled ==> ticked.1 == Action::RunFrame
            &&& running.state is Running
            &&& ended.0.state is Stopped
            &&& ended.1 != Action::RequestTick
            &&& outcome is Ok ==> ended.0.cause == Some(StopCause::Cancelled) && ended.1
                == Action::Release
            &&& outcome is Err ==> ended.0.cause == Some(StopCause::Failed(outcome->Err_0))
                && ended.1 == Action::Fail(outcome->Err_0)
        }),
{
}

/// Once a stop has been requested mid-run, no sequence of events makes the
/// scheduler ask for another tick.
pub proof fn lemma_no_tick_requested_after_stop(s: SchedulerView, events: Seq<Event>)
    requires
        s.stop_requested,
        !(s.state is Idle),
    ensures
        s.run(events).stop_requested,
        !(s.run(events).state is Idle),
        forall|i: int| 0 <= i < events.len() ==> s.action_at(events, i) != Action::RequestTick,
    decreases events.len(),
{
    if events.len() > 0 {
        lemma_no_tick_requested_after_stop(s, events.drop_last());
        assert forall|i: int| 0 <= i < events.len() implies s.action_at(events, i)
            != Action::RequestTick by {
            lemma_no_tick_requested_after_stop(s, events.take(i));
        }
    }
}

/// A scheduler that is never told to start stays idle: it answers every event
/// with `Nothing`, runs no frame and records no failure.
pub proof fn lemma_unstarted_stays_idle(s: SchedulerView, events: Seq<Event>)
    requires
        s.state is Idle,
        forall|i: int| 0 <= i < events.len() ==> !(events[i] is Start),
    ensures
        s.run(events).state is Idle,
        s.run(events).frames == s.frames,
        s.run(events).cause == s.cause,
        forall|i: int| 0 <= i < events.len() ==> s.action_at(events, i) == Action::Nothing,
    decreases events.len(),
{
    if events.len() > 0 {
        lemma_unstarted_stays_idle(s, events.drop_last());
        assert forall|i: int| 0 <= i < events.len() implies s.action_at(events, i)
            == Action::Nothing by {
            lemma_unstarted_stays_idle(s, events.take(i));
        }
    }
}

} // verus!
