use sound_scene::error::FrameError;
use sound_scene::scheduler::{
    Action, Budget, Event, FrameScheduler, SchedulerState, StopCause,
};

fn running_scheduler(budget: Budget) -> FrameScheduler {
    let mut scheduler = FrameScheduler::new(budget);
    assert_eq!(scheduler.start(), Action::RequestTick);
    assert_eq!(scheduler.tick(0), Action::RunFrame);
    scheduler
}

#[test]
fn a_new_scheduler_is_idle() {
    let scheduler = FrameScheduler::new(Budget::unlimited());
    assert_eq!(scheduler.state(), SchedulerState::Idle);
    assert_eq!(scheduler.frames(), 0);
    assert_eq!(scheduler.elapsed_ms(), 0);
    assert!(!scheduler.stop_requested());
    assert_eq!(scheduler.cause(), None);
    assert_eq!(scheduler.failure(), None);
}

#[test]
fn unlimited_budget_has_no_limits() {
    assert_eq!(Budget::unlimited(), Budget { max_frames: None, max_elapsed_ms: None });
}

#[test]
fn start_schedules_the_first_tick() {
    let mut scheduler = FrameScheduler::new(Budget::unlimited());
    assert_eq!(scheduler.start(), Action::RequestTick);
    assert_eq!(scheduler.state(), SchedulerState::Scheduled);
}

#[test]
fn a_second_start_changes_nothing() {
    let mut scheduler = FrameScheduler::new(Budget::unlimited());
    scheduler.start();
    assert_eq!(scheduler.start(), Action::Nothing);
    assert_eq!(scheduler.state(), SchedulerState::Scheduled);
}

#[test]
fn a_tick_runs_one_frame() {
    let mut scheduler = FrameScheduler::new(Budget::unlimited());
    scheduler.start();
    assert_eq!(scheduler.tick(16), Action::RunFrame);
    assert_eq!(scheduler.state(), SchedulerState::Running);
    assert_eq!(scheduler.elapsed_ms(), 16);
    assert_eq!(scheduler.frames(), 0);
}

#[test]
fn a_completed_frame_reschedules() {
    let mut scheduler = running_scheduler(Budget::unlimited());
    assert_eq!(scheduler.frame_done(Ok(())), Action::RequestTick);
    assert_eq!(scheduler.state(), SchedulerState::Scheduled);
    assert_eq!(scheduler.frames(), 1);
    assert_eq!(scheduler.cause(), None);
}

#[test]
fn a_tick_before_start_is_ignored() {
    let mut scheduler = FrameScheduler::new(Budget::unlimited());
    assert_eq!(scheduler.tick(16), Action::Nothing);
    assert_eq!(scheduler.state(), SchedulerState::Idle);
    assert_eq!(scheduler.elapsed_ms(), 0);
}

#[test]
fn a_tick_during_a_frame_is_ignored() {
    let mut scheduler = running_scheduler(Budget::unlimited());
    assert_eq!(scheduler.tick(99), Action::Nothing);
    assert_eq!(scheduler.state(), SchedulerState::Running);
    assert_eq!(scheduler.elapsed_ms(), 0);
}

#[test]
fn a_frame_report_without_a_frame_is_ignored() {
    let mut scheduler = FrameScheduler::new(Budget::unlimited());
    assert_eq!(scheduler.frame_done(Ok(())), Action::Nothing);
    assert_eq!(scheduler.state(), SchedulerState::Idle);
    scheduler.start();
    assert_eq!(scheduler.frame_done(Err(FrameError::Render)), Action::Nothing);
    assert_eq!(scheduler.state(), SchedulerState::Scheduled);
    assert_eq!(scheduler.frames(), 0);
    assert_eq!(scheduler.failure(), None);
}

#[test]
fn stop_while_a_tick_is_pending_ends_the_run_at_that_tick() {
    let mut scheduler = FrameScheduler::new(Budget::unlimited());
    scheduler.start();
    scheduler.tick(0);
    scheduler.frame_done(Ok(()));
    assert_eq!(scheduler.stop(), Action::Nothing);
    assert_eq!(scheduler.state(), SchedulerState::Scheduled);
    assert!(scheduler.stop_requested());
    assert_eq!(scheduler.tick(16), Action::RunFrame);
    assert_eq!(scheduler.frame_done(Ok(())), Action::Release);
    assert_eq!(scheduler.state(), SchedulerState::Stopped);
    assert_eq!(scheduler.cause(), Some(StopCause::Cancelled));
    assert_eq!(scheduler.frames(), 2);
}

#[test]
fn stop_during_a_frame_lets_the_frame_complete() {
    let mut scheduler = running_scheduler(Budget::unlimited());
    assert_eq!(scheduler.stop(), Action::Nothing);
    assert_eq!(scheduler.state(), SchedulerState::Running);
    assert_eq!(scheduler.frame_done(Ok(())), Action::Release);
    assert_eq!(scheduler.state(), SchedulerState::Stopped);
    assert_eq!(scheduler.cause(), Some(StopCause::Cancelled));
    assert_eq!(scheduler.frames(), 1);
}

#[test]
fn no_tick_is_requested_once_the_run_was_stopped() {
    let mut scheduler = running_scheduler(Budget::unlimited());
    scheduler.stop();
    scheduler.frame_done(Ok(()));
    let events = [
        Event::Start,
        Event::Tick(32),
        Event::FrameDone(Ok(())),
        Event::Stop,
        Event::Tick(48),
        Event::FrameDone(Err(FrameError::Audio)),
        Event::Start,
    ];
    for event in events {
        assert_eq!(scheduler.step(event), Action::Nothing);
        assert_eq!(scheduler.state(), SchedulerState::Stopped);
        assert_eq!(scheduler.cause(), Some(StopCause::Cancelled));
        assert_eq!(scheduler.frames(), 1);
        assert_eq!(scheduler.elapsed_ms(), 0);
    }
}

#[test]
fn a_stop_before_start_lets_one_frame_run() {
    let mut scheduler = FrameScheduler::new(Budget::unlimited());
    scheduler.stop();
    assert_eq!(scheduler.state(), SchedulerState::Idle);
    assert_eq!(scheduler.start(), Action::RequestTick);
    assert_eq!(scheduler.tick(0), Action::RunFrame);
    assert_eq!(scheduler.frame_done(Ok(())), Action::Release);
    assert_eq!(scheduler.cause(), Some(StopCause::Cancelled));
}

#[test]
fn a_failed_frame_stops_the_scheduler_and_is_reported() {
    let mut scheduler = running_scheduler(Budget::unlimited());
    assert_eq!(scheduler.frame_done(Err(FrameError::Render)), Action::Fail(FrameError::Render));
    assert_eq!(scheduler.state(), SchedulerState::Stopped);
    assert_eq!(scheduler.cause(), Some(StopCause::Failed(FrameError::Render)));
    assert_eq!(scheduler.failure(), Some(FrameError::Render));
    assert_eq!(scheduler.frames(), 0);
}

#[test]
fn a_failed_frame_is_not_retried() {
    let mut scheduler = running_scheduler(Budget::unlimited());
    scheduler.frame_done(Err(FrameError::Audio));
    assert_eq!(scheduler.tick(16), Action::Nothing);
    assert_eq!(scheduler.frame_done(Ok(())), Action::Nothing);
    assert_eq!(scheduler.start(), Action::Nothing);
    assert_eq!(scheduler.state(), SchedulerState::Stopped);
    assert_eq!(scheduler.failure(), Some(FrameError::Audio));
}

#[test]
fn a_failure_goes_before_a_stop_request() {
    let mut scheduler = running_scheduler(Budget::unlimited());
    scheduler.stop();
    assert_eq!(scheduler.frame_done(Err(FrameError::Render)), Action::Fail(FrameError::Render));
    assert_eq!(scheduler.cause(), Some(StopCause::Failed(FrameError::Render)));
}

#[test]
fn the_frame_budget_ends_the_run() {
    let mut scheduler = FrameScheduler::new(Budget { max_frames: Some(3), max_elapsed_ms: None });
    scheduler.start();
    for frame in 0..2u64 {
        assert_eq!(scheduler.tick(frame * 16), Action::RunFrame);
        assert_eq!(scheduler.frame_done(Ok(())), Action::RequestTick);
    }
    assert_eq!(scheduler.tick(32), Action::RunFrame);
    assert_eq!(scheduler.frame_done(Ok(())), Action::Release);
    assert_eq!(scheduler.state(), SchedulerState::Stopped);
    assert_eq!(scheduler.cause(), Some(StopCause::FrameBudget));
    assert_eq!(scheduler.frames(), 3);
}

#[test]
fn a_frame_budget_of_zero_still_runs_one_frame() {
    let mut scheduler = FrameScheduler::new(Budget { max_frames: Some(0), max_elapsed_ms: None });
    assert_eq!(scheduler.start(), Action::RequestTick);
    assert_eq!(scheduler.tick(0), Action::RunFrame);
    assert_eq!(scheduler.frame_done(Ok(())), Action::Release);
    assert_eq!(scheduler.cause(), Some(StopCause::FrameBudget));
    assert_eq!(scheduler.frames(), 1);
}

#[test]
fn the_time_budget_ends_the_run() {
    let mut scheduler =
        FrameScheduler::new(Budget { max_frames: None, max_elapsed_ms: Some(1000) });
    scheduler.start();
    assert_eq!(scheduler.tick(999), Action::RunFrame);
    assert_eq!(scheduler.frame_done(Ok(())), Action::RequestTick);
    assert_eq!(scheduler.tick(1000), Action::RunFrame);
    assert_eq!(scheduler.frame_done(Ok(())), Action::Release);
    assert_eq!(scheduler.cause(), Some(StopCause::TimeBudget));
    assert_eq!(scheduler.frames(), 2);
    assert_eq!(scheduler.elapsed_ms(), 1000);
}

#[test]
fn a_stop_request_goes_before_the_budgets() {
    let mut scheduler =
        FrameScheduler::new(Budget { max_frames: Some(1), max_elapsed_ms: Some(0) });
    scheduler.start();
    scheduler.tick(5);
    scheduler.stop();
    assert_eq!(scheduler.frame_done(Ok(())), Action::Release);
    assert_eq!(scheduler.cause(), Some(StopCause::Cancelled));
}

#[test]
fn the_frame_budget_goes_before_the_time_budget() {
    let mut scheduler =
        FrameScheduler::new(Budget { max_frames: Some(1), max_elapsed_ms: Some(0) });
    scheduler.start();
    scheduler.tick(5);
    assert_eq!(scheduler.frame_done(Ok(())), Action::Release);
    assert_eq!(scheduler.cause(), Some(StopCause::FrameBudget));
}

#[test]
fn uneven_tick_intervals_are_taken_as_they_come() {
    let mut scheduler = FrameScheduler::new(Budget::unlimited());
    scheduler.start();
    let times = [0u64, 3, 1000, 1001, 1_000_000];
    let mut frames = 0u64;
    for time in times {
        assert_eq!(scheduler.tick(time), Action::RunFrame);
        assert_eq!(scheduler.elapsed_ms(), time);
        assert_eq!(scheduler.frame_done(Ok(())), Action::RequestTick);
        frames += 1;
        assert_eq!(scheduler.frames(), frames);
    }
}

#[test]
fn step_answers_as_the_methods_do() {
    let mut by_step = FrameScheduler::new(Budget { max_frames: Some(2), max_elapsed_ms: None });
    let mut by_call = FrameScheduler::new(Budget { max_frames: Some(2), max_elapsed_ms: None });
    assert_eq!(by_step.step(Event::Start), by_call.start());
    assert_eq!(by_step.step(Event::Tick(7)), by_call.tick(7));
    assert_eq!(by_step.step(Event::FrameDone(Ok(()))), by_call.frame_done(Ok(())));
    assert_eq!(by_step.step(Event::Stop), by_call.stop());
    assert_eq!(by_step.step(Event::Tick(9)), by_call.tick(9));
    assert_eq!(
        by_step.step(Event::FrameDone(Err(FrameError::Render))),
        by_call.frame_done(Err(FrameError::Render))
    );
    assert_eq!(by_step.state(), by_call.state());
    assert_eq!(by_step.cause(), by_call.cause());
    assert_eq!(by_step.frames(), by_call.frames());
    assert_eq!(by_step.elapsed_ms(), by_call.elapsed_ms());
    assert_eq!(by_step.state(), SchedulerState::Stopped);
    assert_eq!(by_step.cause(), Some(StopCause::Failed(FrameError::Render)));
}

#[test]
fn a_frame_starts_only_from_a_pending_tick() {
    let mut scheduler = FrameScheduler::new(Budget::unlimited());
    let events = [
        Event::Tick(1),
        Event::Start,
        Event::Tick(2),
        Event::Tick(3),
        Event::Start,
        Event::FrameDone(Ok(())),
        Event::FrameDone(Ok(())),
        Event::Tick(4),
    ];
    let expected = [
        Action::Nothing,
        Action::RequestTick,
        Action::RunFrame,
        Action::Nothing,
        Action::Nothing,
        Action::RequestTick,
        Action::Nothing,
        Action::RunFrame,
    ];
    for (event, action) in events.into_iter().zip(expected) {
        let before = scheduler.state();
        assert_eq!(scheduler.step(event), action);
        if action == Action::RunFrame {
            assert_eq!(before, SchedulerState::Scheduled);
            assert_eq!(scheduler.state(), SchedulerState::Running);
        }
    }
}
