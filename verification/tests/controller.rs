use camcap::channel::TickChannelClosed;
use camcap::controller::{TimerAction, TimerEvent, TimerState, TimerWait};
use camcap::timer::{SetTimerMsg, TimerMsg};
use std::time::Duration;
use tokio::sync::mpsc::error::TryRecvError;
use tokio::sync::mpsc::unbounded_channel;

fn start(secs: u64) -> TimerEvent {
    TimerEvent::Command(SetTimerMsg::Interval(Some(Duration::from_secs(secs))))
}

fn stop() -> TimerEvent {
    TimerEvent::Command(SetTimerMsg::Interval(None))
}

#[test]
fn new_controller_is_disabled() {
    let state = TimerState::new();
    assert_eq!(state.interval, None);
    assert_eq!(state.active_duration(), None);
    assert_eq!(state.wait_for(), TimerWait::Command);
}

#[test]
fn start_command_activates_the_timer() {
    let mut state = TimerState::new();
    let action = state.step(start(5));
    assert_eq!(action, TimerAction::Restart(Duration::from_secs(5)));
    assert_eq!(state.active_duration(), Some(Duration::from_secs(5)));
    assert_eq!(
        state.wait_for(),
        TimerWait::TimerOrCommand(Duration::from_secs(5))
    );
}

#[test]
fn firing_while_active_emits_a_tick_and_stays_active() {
    let mut state = TimerState::new();
    state.step(start(5));
    for _ in 0..3 {
        assert_eq!(
            state.step(TimerEvent::Fired),
            TimerAction::Emit(TimerMsg::CaptureImage)
        );
        assert_eq!(state.active_duration(), Some(Duration::from_secs(5)));
    }
}

#[test]
fn firing_while_disabled_emits_nothing() {
    let mut state = TimerState::new();
    assert_eq!(state.step(TimerEvent::Fired), TimerAction::Idle);
    assert_eq!(state, TimerState::new());
}

#[test]
fn stop_while_disabled_changes_nothing() {
    let mut state = TimerState::new();
    let before = state;
    assert_eq!(state.step(stop()), TimerAction::Idle);
    assert_eq!(state, before);
    assert_eq!(state.step(stop()), TimerAction::Idle);
    assert_eq!(state, before);
    assert_eq!(state.wait_for(), TimerWait::Command);
}

#[test]
fn stop_while_active_cancels_the_timer() {
    let mut state = TimerState::new();
    state.step(start(7));
    assert_eq!(state.step(stop()), TimerAction::Cancel);
    assert_eq!(state.active_duration(), None);
    assert_eq!(state.wait_for(), TimerWait::Command);
}

#[test]
fn no_tick_after_stop_until_started_again() {
    let mut state = TimerState::new();
    state.step(start(2));
    state.step(stop());
    let quiet = [TimerEvent::Fired, stop(), TimerEvent::Fired, TimerEvent::Fired];
    for event in quiet {
        let action = state.step(event);
        assert!(!matches!(action, TimerAction::Emit(_)));
        assert_eq!(state.active_duration(), None);
    }
    state.step(start(4));
    assert_eq!(
        state.step(TimerEvent::Fired),
        TimerAction::Emit(TimerMsg::CaptureImage)
    );
}

#[test]
fn new_period_replaces_the_running_one() {
    let mut state = TimerState::new();
    assert_eq!(
        state.step(start(10)),
        TimerAction::Restart(Duration::from_secs(10))
    );
    assert_eq!(
        state.step(start(3)),
        TimerAction::Restart(Duration::from_secs(3))
    );
    assert_eq!(state.active_duration(), Some(Duration::from_secs(3)));
    assert_eq!(
        state.wait_for(),
        TimerWait::TimerOrCommand(Duration::from_secs(3))
    );
    assert_eq!(
        state.step(TimerEvent::Fired),
        TimerAction::Emit(TimerMsg::CaptureImage)
    );
    assert_eq!(state.active_duration(), Some(Duration::from_secs(3)));
}

#[test]
fn last_command_wins_over_any_history() {
    let histories: Vec<Vec<TimerEvent>> = vec![
        vec![],
        vec![start(1)],
        vec![start(1), TimerEvent::Fired, stop()],
        vec![stop(), stop(), start(9), TimerEvent::Fired, TimerEvent::Fired],
        vec![TimerEvent::ControlClosed, start(2)],
    ];
    let finals = [
        (start(30), Some(Duration::from_secs(30))),
        (stop(), None),
        (start(86400), Some(Duration::from_secs(86400))),
    ];
    for history in &histories {
        for (last, expected) in &finals {
            let mut state = TimerState::new();
            for event in history {
                state.step(*event);
            }
            state.step(*last);
            state.step(TimerEvent::Fired);
            state.step(TimerEvent::Fired);
            assert_eq!(state.active_duration(), *expected);
        }
    }
}

#[test]
fn closed_control_channel_halts_and_leaves_no_timer() {
    let mut state = TimerState::new();
    state.step(start(5));
    assert_eq!(state.step(TimerEvent::ControlClosed), TimerAction::Halt);
    assert_eq!(state.active_duration(), None);
    assert_eq!(state.step(TimerEvent::Fired), TimerAction::Idle);

    let mut idle = TimerState::new();
    assert_eq!(idle.step(TimerEvent::ControlClosed), TimerAction::Halt);
    assert_eq!(idle.active_duration(), None);
}

#[test]
fn period_round_trip_from_one_second_to_one_day() {
    for secs in [1u64, 2, 59, 60, 3599, 3600, 86399, 86400] {
        let period = Duration::from_secs(secs);
        let command = SetTimerMsg::Interval(Some(period));
        assert_eq!(command.duration(), Some(period));
        let mut state = TimerState::new();
        state.step(TimerEvent::Command(command));
        assert_eq!(state.active_duration(), Some(period));
        assert_eq!(state.active_duration().map(|d| d.as_secs()), Some(secs));
    }
}

#[test]
fn stop_command_carries_no_period() {
    assert_eq!(SetTimerMsg::Interval(None).duration(), None);
}

#[test]
fn dispatch_puts_one_tick_per_firing_on_the_channel() {
    let (ticks, mut receiver) = unbounded_channel();
    let mut state = TimerState::new();
    assert_eq!(
        state.dispatch(start(5), &ticks),
        Ok(TimerAction::Restart(Duration::from_secs(5)))
    );
    assert_eq!(receiver.try_recv(), Err(TryRecvError::Empty));
    for _ in 0..2 {
        assert_eq!(
            state.dispatch(TimerEvent::Fired, &ticks),
            Ok(TimerAction::Emit(TimerMsg::CaptureImage))
        );
    }
    assert_eq!(receiver.try_recv(), Ok(TimerMsg::CaptureImage));
    assert_eq!(receiver.try_recv(), Ok(TimerMsg::CaptureImage));
    assert_eq!(receiver.try_recv(), Err(TryRecvError::Empty));
    assert_eq!(state.dispatch(stop(), &ticks), Ok(TimerAction::Cancel));
    assert_eq!(state.dispatch(TimerEvent::Fired, &ticks), Ok(TimerAction::Idle));
    assert_eq!(
        state.dispatch(TimerEvent::ControlClosed, &ticks),
        Ok(TimerAction::Halt)
    );
    assert_eq!(receiver.try_recv(), Err(TryRecvError::Empty));
}

#[test]
fn dispatch_reports_a_tick_that_nobody_receives() {
    let (ticks, receiver) = unbounded_channel();
    drop(receiver);
    let mut state = TimerState::new();
    assert_eq!(
        state.dispatch(start(5), &ticks),
        Ok(TimerAction::Restart(Duration::from_secs(5)))
    );
    assert_eq!(
        state.dispatch(TimerEvent::Fired, &ticks),
        Err(TickChannelClosed)
    );
    assert_eq!(state.active_duration(), Some(Duration::from_secs(5)));
    assert_eq!(state.dispatch(stop(), &ticks), Ok(TimerAction::Cancel));
}
