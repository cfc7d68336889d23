//! The interval controller: a state machine that owns at most one repeating
//! timer and turns its firings into capture ticks.
//!
//! The machine itself never waits. The task that hosts it waits for the next
//! of "the timer fired" and "a command arrived", hands the event to
//! [`TimerState::step`], and carries out the returned [`TimerAction`].
//! [`TimerState::dispatch`] does the same and emits the tick itself, which
//! needs no waiting: the tick channel is unbounded.

use crate::channel::{send_message, TickChannelClosed};
use crate::timer::{SetTimerMsg, TimerMsg};
use std::time::Duration;
use tokio::sync::mpsc::UnboundedSender;
use vstd::prelude::*;

verus! {

/// The controller's whole state: the period of the running timer, or `None`
/// while no timer runs.
#[derive(Debug, Clone, Copy, PartialEq, Eq)]
pub struct TimerState {
    pub interval: Option<Duration>,
}

/// One wake-up of the controller task.
#[derive(Debug, Clone, Copy, PartialEq, Eq)]
pub enum TimerEvent {
    /// The running timer fired.
    Fired,
    /// A command arrived on the control channel.
    Command(SetTimerMsg),
    /// Every sender of the control channel is gone.
    ControlClosed,
}

/// What the hosting task has to do after a step.
#[derive(Debug, Clone, Copy, PartialEq, Eq)]
pub enum TimerAction {
    /// Nothing.
    Idle,
    /// Put the message on the tick channel.
    Emit(TimerMsg),
    /// Drop the running timer, if any, and start a fresh one with this period.
    Restart(Duration),
    /// Drop the running timer.
    Cancel,
    /// Drop the running timer and stop for good: no command can arrive any more.
    Halt,
}

/// What the hosting task has to wait for before the next step.
#[derive(Debug, Clone, Copy, PartialEq, Eq)]
pub enum TimerWait {
    /// Only for the next command.
    Command,
    /// For whichever comes first: the timer with this period, or a command.
    TimerOrCommand(Duration),
}

impl TimerState {
    /// The state before any command: no timer runs.
    pub open spec fn disabled() -> TimerState {
        TimerState { interval: None }
    }

    /// The state that follows `self` on `event`.
    ///
    /// A firing changes nothing, a command replaces the period whatever it
    /// was, and the loss of the control channel leaves no timer.
    pub open spec fn next(self, event: TimerEvent) -> TimerState {
        match event {
            TimerEvent::Fired => self,
            TimerEvent::Command(command) => TimerState { interval: command.period() },
            TimerEvent::ControlClosed => TimerState { interval: None },
        }
    }

    /// The action that `event` calls for in state `self`.
    pub open spec fn reaction(self, event: TimerEvent) -> TimerAction {
        match event {
            TimerEvent::Fired => if self.interval is Some {
                TimerAction::Emit(TimerMsg::CaptureImage)
            } else {
                TimerAction::Idle
            },
            TimerEvent::Command(command) => match command.period() {
                Some(period) => TimerAction::Restart(period),
                None => if self.interval is Some {
                    TimerAction::Cancel
                } else {
                    TimerAction::Idle
                },
            },
            TimerEvent::ControlClosed => TimerAction::Halt,
        }
    }

    /// The state reached from `self` after all of `events`, in order.
    pub open spec fn run(self, events: Seq<TimerEvent>) -> TimerState
        decreases events.len(),
    {
        if events.len() == 0 {
            self
        } else {
            self.run(events.drop_last()).next(events.last())
        }
    }

    /// The action taken on the `i`-th of `events` when they are handled in
    /// order, starting from `self`.
    pub open spec fn action_at(self, events: Seq<TimerEvent>, i: int) -> TimerAction
        recommends
            0 <= i < events.len(),
    {
        self.run(events.take(i)).reaction(events[i])
    }

    /// What the hosting task waits for in state `self`.
    pub open spec fn awaited(self) -> TimerWait {
        match self.interval {
            Some(period) => TimerWait::TimerOrCommand(period),
            None => TimerWait::Command,
        }
    }

    /// A controller with no timer running.
    pub fn new() -> (state: TimerState)
        ensures
            state == TimerState::disabled(),
    {
        TimerState { interval: None }
    }

    /// The period of the running timer, `None` while disabled.
    pub fn active_duration(&self) -> (period: Option<Duration>)
        ensures
            period == self.interval,
    {
        self.interval
    }

    /// What to wait for before the next call of [`TimerState::step`].
    pub fn wait_for(&self) -> (wait: TimerWait)
        ensures
            wait == self.awaited(),
    {
        match self.interval {
            Some(period) => TimerWait::TimerOrCommand(period),
            None => TimerWait::Command,
        }
    }

    /// Handles one event: moves to the next state and says what to do.
    pub fn step(&mut self, event: TimerEvent) -> (action: TimerAction)
        ensures
            *final(self) == old(self).next(event),
            action == old(self).reaction(event),
    {
        match event {
            TimerEvent::Fired => {
                if self.interval.is_some() {
                    TimerAction::Emit(TimerMsg::CaptureImage)
                } else {
                    TimerAction::Idle
                }
            },
            TimerEvent::Command(command) => {
                let was_active = self.interval.is_some();
                let wanted = command.duration();
                self.interval = wanted;
                match wanted {
                    Some(period) => TimerAction::Restart(period),
                    None => if was_active {
                        TimerAction::Cancel
                    } else {
                        TimerAction::Idle
                    },
                }
            },
            TimerEvent::ControlClosed => {
                self.interval = None;
                TimerAction::Halt
            },
        }
    }

    /// Handles one event as [`TimerState::step`] does and, where a tick is
    /// due, puts it on the tick channel.
    ///
    /// The state moves on whether or not the tick could be queued. The
    /// result is the action that the event called for, or the news that the
    /// tick was due and the render loop no longer listens.
    pub fn dispatch(
        &mut self,
        event: TimerEvent,
        ticks: &UnboundedSender<TimerMsg>,
    ) -> (done: Result<TimerAction, TickChannelClosed>)
        ensures
            *final(self) == old(self).next(event),
            done matches Ok(action) ==> action == old(self).reaction(event),
            done is Err ==> old(self).reaction(event) is Emit,
    {
        let action = self.step(event);
        match action {
            TimerAction::Emit(tick) => if send_message(ticks, tick) {
                Ok(action)
            } else {
                Err(TickChannelClosed)
            },
            _ => Ok(action),
        }
    }
}

/// Whether `event` is a command that starts a timer.
pub open spec fn starts_timer(event: TimerEvent) -> bool {
    event matches TimerEvent::Command(command) && command.period() is Some
}

/// Handling `first` and then `then` is handling the two in one go.
pub proof fn lemma_run_concat(start: TimerState, first: Seq<TimerEvent>, then: Seq<TimerEvent>)
    ensures
        start.run(first + then) == start.run(first).run(then),
    decreases then.len(),
{
    if then.len() == 0 {
        assert(first + then =~= first);
    } else {
        lemma_run_concat(start, first, then.drop_last());
        assert((first + then).drop_last() =~= first + then.drop_last());
        assert((first + then).last() == then.last());
    }
}

/// Last write wins: once the events have been handled, the active period is
/// the one of the last command among them, whatever came before it and
/// however often the timer fired after it.
pub proof fn lemma_last_command_wins(
    start: TimerState,
    events: Seq<TimerEvent>,
    last: int,
    command: SetTimerMsg,
)
    requires
        0 <= last < events.len(),
        events[last] == TimerEvent::Command(command),
        forall|j: int| last < j < events.len() ==> events[j] is Fired,
    ensures
        start.run(events).interval == command.period(),
    decreases events.len(),
{
    if last < events.len() - 1 {
        lemma_last_command_wins(start, events.drop_last(), last, command);
    }
}

/// A disabled controller stays disabled until a command starts a timer.
pub proof fn lemma_disabled_until_started(start: TimerState, events: Seq<TimerEvent>)
    requires
        start.interval is None,
        forall|j: int| 0 <= j < events.len() ==> !starts_timer(events[j]),
    ensures
        start.run(events).interval is None,
    decreases events.len(),
{
    if events.len() > 0 {
        lemma_disabled_until_started(start, events.drop_last());
    }
}

/// After a command to stop, no tick is emitted until a command starts a
/// timer again: not for a stale firing either.
pub proof fn lemma_stop_silences_ticks(
    start: TimerState,
    events: Seq<TimerEvent>,
    stop: int,
    i: int,
)
    requires
        0 <= stop < i < events.len(),
        events[stop] == TimerEvent::Command(SetTimerMsg::Interval(None)),
        forall|j: int| stop < j < i ==> !starts_timer(events[j]),
    ensures
        !(start.action_at(events, i) is Emit),
        start.run(events.take(i)).interval is None,
{
    let head = events.take(stop + 1);
    let tail = events.subrange(stop + 1, i);
    assert(events.take(i) =~= head + tail);
    lemma_run_concat(start, head, tail);
    assert(head.last() == events[stop]);
    assert(start.run(head).interval is None);
    assert forall|j: int| 0 <= j < tail.len() implies !starts_timer(tail[j]) by {
        assert(tail[j] == events[stop + 1 + j]);
    }
    lemma_disabled_until_started(start.run(head), tail);
}

/// A command to stop that reaches a disabled controller changes nothing:
/// the state stays as it is and there is nothing to do.
pub proof fn lemma_stop_when_disabled_is_noop(state: TimerState)
    requires
        state.interval is None,
    ensures
        state.next(TimerEvent::Command(SetTimerMsg::Interval(None))) == state,
        state.reaction(TimerEvent::Command(SetTimerMsg::Interval(None))) == TimerAction::Idle,
{
}

/// A period that is put into a command is the period that the controller
/// reports as active after the command, for every period and every state.
pub proof fn lemma_command_period_round_trip(state: TimerState, period: Duration)
    ensures
        state.next(TimerEvent::Command(SetTimerMsg::Interval(Some(period)))).interval == Some(
            period,
        ),
        state.next(TimerEvent::Command(SetTimerMsg::Interval(Some(period)))).awaited()
            == TimerWait::TimerOrCommand(period),
        state.reaction(TimerEvent::Command(SetTimerMsg::Interval(Some(period))))
            == TimerAction::Restart(period),
{
}

} // verus!
