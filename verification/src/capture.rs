//! The capture orchestrator: what the render loop decides once per frame.
//!
//! A frame goes in three steps. [`State::next_request`] looks at the tick
//! channel without waiting and says what kind of capture is due.
//! [`save_target`] says where a capture has to be written, if anywhere. The
//! caller then talks to the camera and the disk, and reports how that went
//! to [`State::finish`], which counts the saved image and says whether the
//! displayed frame changed.

use crate::channel::{send_message, try_receive, Polled, TickChannelClosed};
use crate::controller::{TimerEvent, TimerState};
use crate::naming::{file_name_chars, image_file_name};
use crate::timer::{whole_seconds, SetTimerMsg, TimerMsg};
use std::time::Duration;
use tokio::sync::mpsc::{UnboundedReceiver, UnboundedSender};
use vstd::prelude::*;
use vstd::string::*;

verus! {

/// The timer period, in seconds, before the user chooses one.
pub const DEFAULT_TIMER_SECS: usize = 20;

/// The shortest timer period that the user can choose, in seconds.
pub const MIN_TIMER_SECS: usize = 1;

/// The longest timer period that the user can choose, in seconds: one day.
pub const MAX_TIMER_SECS: usize = 86400;

/// What is due in the current frame.
#[derive(Debug, Clone, Copy, PartialEq, Eq)]
pub enum CaptureRequest {
    /// No capture.
    Skip,
    /// Capture for display only: nothing is written, nothing is counted.
    Preview,
    /// Capture, write the image under this sequence number, and display it.
    Save(usize),
}

/// Why a capture did not succeed.
#[derive(Debug, Clone, Copy, PartialEq, Eq)]
pub enum CaptureError {
    /// No camera is selected.
    NoCamera,
    /// The camera could not be opened or did not deliver a frame.
    Device,
    /// The frame could not be decoded.
    Decode,
    /// An image is to be saved, but no target folder is selected.
    NoDestination,
    /// The image file could not be written.
    Write,
}

/// The render loop's part of the shared state: its ends of the two channels
/// and the settings that the user controls.
pub struct State {
    pub timer_msg_recv: UnboundedReceiver<TimerMsg>,
    pub timer_set_msg_sender: UnboundedSender<SetTimerMsg>,
    pub timer_running: bool,
    pub timer_duration: Duration,
    pub image_nr: usize,
    pub timer_config: usize,
    pub preview_cam: bool,
}

/// The settings of a [`State`], without its channels.
pub ghost struct Settings {
    /// Whether the user has started interval capturing.
    pub running: bool,
    /// The configured timer period.
    pub period: Duration,
    /// The sequence number of the next image to save.
    pub sequence: nat,
    /// The timer period in seconds, as last chosen by the user.
    pub config_secs: nat,
    /// Whether preview mode is on.
    pub preview: bool,
}

impl View for State {
    type V = Settings;

    open spec fn view(&self) -> Settings {
        Settings {
            running: self.timer_running,
            period: self.timer_duration,
            sequence: self.image_nr as nat,
            config_secs: self.timer_config as nat,
            preview: self.preview_cam,
        }
    }
}

/// The capture that is due in a frame, by whether a tick was received and
/// whether preview mode is on.
///
/// Preview mode captures in every frame and never saves. Outside preview
/// mode a tick asks for a saved capture, and no tick for none.
pub open spec fn decision(tick: bool, preview: bool, sequence: usize) -> CaptureRequest {
    if preview {
        CaptureRequest::Preview
    } else if tick {
        CaptureRequest::Save(sequence)
    } else {
        CaptureRequest::Skip
    }
}

/// The outcome of a frame's look at the tick channel.
///
/// A closed channel is an error only where a tick would matter: in preview
/// mode the frame goes on as if the channel were empty.
pub open spec fn requested(polled: Polled<TimerMsg>, preview: bool, sequence: usize) -> Result<
    CaptureRequest,
    TickChannelClosed,
> {
    match polled {
        Polled::Message(_) => Ok(decision(true, preview, sequence)),
        Polled::Empty => Ok(decision(false, preview, sequence)),
        Polled::Disconnected => if preview {
            Ok(CaptureRequest::Preview)
        } else {
            Err(TickChannelClosed)
        },
    }
}

/// Whether a capture for `request` that ended as `captured` says has put a
/// new frame on display.
pub open spec fn frame_replaced(request: CaptureRequest, captured: bool) -> bool {
    captured && !(request is Skip)
}

/// Whether a capture for `request` that ended as `captured` says has saved
/// an image.
pub open spec fn image_saved(request: CaptureRequest, captured: bool) -> bool {
    captured && request is Save
}

/// The message of a capture error.
pub open spec fn error_text(error: CaptureError) -> Seq<char> {
    match error {
        CaptureError::NoCamera => "No cam selected"@,
        CaptureError::Device => "camera error"@,
        CaptureError::Decode => "frame could not be decoded"@,
        CaptureError::NoDestination => "no destination"@,
        CaptureError::Write => "image could not be written"@,
    }
}

impl Settings {
    /// The settings after a frame's capture: a saved image advances the
    /// sequence number by one, and nothing else ever changes.
    pub open spec fn finished(self, request: CaptureRequest, captured: bool) -> Settings {
        if image_saved(request, captured) {
            Settings { sequence: self.sequence + 1, ..self }
        } else {
            self
        }
    }

    /// The settings after all of `frames`, each a request and whether its
    /// capture succeeded.
    pub open spec fn after_frames(self, frames: Seq<(CaptureRequest, bool)>) -> Settings
        decreases frames.len(),
    {
        if frames.len() == 0 {
            self
        } else {
            self.after_frames(frames.drop_last()).finished(frames.last().0, frames.last().1)
        }
    }

    /// The command that starts the timer when it is off and stops it when
    /// it is on.
    pub open spec fn timer_command(self) -> SetTimerMsg {
        if self.running {
            SetTimerMsg::Interval(None)
        } else {
            SetTimerMsg::Interval(Some(self.period))
        }
    }
}

/// How many of `frames` saved an image.
pub open spec fn saved_count(frames: Seq<(CaptureRequest, bool)>) -> nat
    decreases frames.len(),
{
    if frames.len() == 0 {
        0
    } else {
        saved_count(frames.drop_last()) + if image_saved(frames.last().0, frames.last().1) {
            1nat
        } else {
            0nat
        }
    }
}

impl CaptureError {
    /// The message to log for this error.
    pub fn message(&self) -> (text: String)
        ensures
            text@ == error_text(*self),
    {
        match self {
            CaptureError::NoCamera => String::from_str("No cam selected"),
            CaptureError::Device => String::from_str("camera error"),
            CaptureError::Decode => String::from_str("frame could not be decoded"),
            CaptureError::NoDestination => String::from_str("no destination"),
            CaptureError::Write => String::from_str("image could not be written"),
        }
    }
}

/// The capture that is due in a frame: the decision table of the orchestrator.
pub fn decide(tick: bool, preview: bool, sequence: usize) -> (request: CaptureRequest)
    ensures
        request == decision(tick, preview, sequence),
{
    if preview {
        CaptureRequest::Preview
    } else if tick {
        CaptureRequest::Save(sequence)
    } else {
        CaptureRequest::Skip
    }
}

/// Turns what the tick channel gave into the frame's request.
pub fn request_for(polled: Polled<TimerMsg>, preview: bool, sequence: usize) -> (request: Result<
    CaptureRequest,
    TickChannelClosed,
>)
    ensures
        request == requested(polled, preview, sequence),
{
    match polled {
        Polled::Message(_) => Ok(decide(true, preview, sequence)),
        Polled::Empty => Ok(decide(false, preview, sequence)),
        Polled::Disconnected => if preview {
            Ok(CaptureRequest::Preview)
        } else {
            Err(TickChannelClosed)
        },
    }
}

/// Where the capture for `request` has to be written.
///
/// Only a saved capture is written, under the file name of its sequence
/// number, and only if a target folder is selected: without one it fails
/// for want of a destination. A preview needs no folder.
pub fn save_target(request: CaptureRequest, folder_selected: bool) -> (target: Result<
    Option<String>,
    CaptureError,
>)
    ensures
        target is Err <==> request is Save && !folder_selected,
        target is Err ==> target->Err_0 == CaptureError::NoDestination,
        target is Ok ==> (target->Ok_0 is Some <==> request is Save),
        target matches Ok(Some(name)) ==> name@ == file_name_chars(request->Save_0 as nat),
{
    match request {
        CaptureRequest::Save(sequence) => if folder_selected {
            Ok(Some(image_file_name(sequence)))
        } else {
            Err(CaptureError::NoDestination)
        },
        _ => Ok(None),
    }
}

impl State {
    /// The state at start-up: timer off, a period of twenty seconds, the
    /// first image still to come, preview off.
    pub fn new(
        set_timer_sender: UnboundedSender<SetTimerMsg>,
        msg_recv: UnboundedReceiver<TimerMsg>,
    ) -> (state: State)
        ensures
            state.timer_set_msg_sender == set_timer_sender,
            state.timer_msg_recv == msg_recv,
            state@ == (Settings {
                running: false,
                period: whole_seconds(DEFAULT_TIMER_SECS as u64),
                sequence: 0,
                config_secs: DEFAULT_TIMER_SECS as nat,
                preview: false,
            }),
    {
        State {
            timer_msg_recv: msg_recv,
            timer_set_msg_sender: set_timer_sender,
            timer_running: false,
            timer_duration: Duration::from_secs(DEFAULT_TIMER_SECS as u64),
            image_nr: 0,
            timer_config: DEFAULT_TIMER_SECS,
            preview_cam: false,
        }
    }

    /// Takes at most one pending tick from the tick channel, without
    /// waiting, and says what capture is due in this frame.
    ///
    /// Whether a tick is pending is for the timer task to decide, so the
    /// result is stated for whatever the channel gave.
    pub fn next_request(&mut self) -> (request: Result<CaptureRequest, TickChannelClosed>)
        ensures
            final(self)@ == old(self)@,
            final(self).timer_set_msg_sender == old(self).timer_set_msg_sender,
            exists|polled: Polled<TimerMsg>|
                request == requested(polled, old(self).preview_cam, old(self).image_nr),
            old(self).preview_cam ==> request == Ok::<CaptureRequest, TickChannelClosed>(
                CaptureRequest::Preview,
            ),
            !old(self).preview_cam ==> request is Err || request == Ok::<
                CaptureRequest,
                TickChannelClosed,
            >(CaptureRequest::Skip) || request == Ok::<CaptureRequest, TickChannelClosed>(
                CaptureRequest::Save(old(self).image_nr),
            ),
    {
        let polled = try_receive(&mut self.timer_msg_recv);
        request_for(polled, self.preview_cam, self.image_nr)
    }

    /// Records how the capture for `request` went and says whether the
    /// displayed frame changed.
    ///
    /// Only a saved capture that succeeded advances the sequence number.
    pub fn finish(
        &mut self,
        request: CaptureRequest,
        outcome: Result<(), CaptureError>,
    ) -> (changed: bool)
        requires
            image_saved(request, outcome is Ok) ==> old(self).image_nr < usize::MAX,
        ensures
            final(self)@ == old(self)@.finished(request, outcome is Ok),
            changed == frame_replaced(request, outcome is Ok),
            final(self).timer_set_msg_sender == old(self).timer_set_msg_sender,
            final(self).timer_msg_recv == old(self).timer_msg_recv,
    {
        match (request, outcome) {
            (CaptureRequest::Skip, _) => false,
            (_, Err(_)) => false,
            (CaptureRequest::Preview, Ok(_)) => true,
            (CaptureRequest::Save(_), Ok(_)) => {
                self.image_nr = self.image_nr + 1;
                true
            },
        }
    }

    /// Starts the timer when it is off and stops it when it is on: flips
    /// the running flag and sends the matching command to the timer task.
    ///
    /// Returns the command. It is sent whether or not the timer task still
    /// listens.
    pub fn toggle_timer(&mut self) -> (command: SetTimerMsg)
        ensures
            command == old(self)@.timer_command(),
            final(self)@ == (Settings { running: !old(self)@.running, ..old(self)@ }),
            final(self).timer_set_msg_sender == old(self).timer_set_msg_sender,
            final(self).timer_msg_recv == old(self).timer_msg_recv,
    {
        let command = if self.timer_running {
            SetTimerMsg::Interval(None)
        } else {
            SetTimerMsg::Interval(Some(self.timer_duration))
        };
        self.timer_running = !self.timer_running;
        let _ = send_message(&self.timer_set_msg_sender, command);
        command
    }

    /// Turns preview mode on when it is off and off when it is on.
    pub fn toggle_preview(&mut self)
        ensures
            final(self)@ == (Settings { preview: !old(self)@.preview, ..old(self)@ }),
            final(self).timer_set_msg_sender == old(self).timer_set_msg_sender,
            final(self).timer_msg_recv == old(self).timer_msg_recv,
    {
        self.preview_cam = !self.preview_cam;
    }

    /// Makes the configured period the number of seconds that the user
    /// chose last.
    pub fn apply_timer_config(&mut self)
        ensures
            final(self)@ == (Settings {
                period: whole_seconds(old(self).timer_config as u64),
                ..old(self)@
            }),
            final(self).timer_set_msg_sender == old(self).timer_set_msg_sender,
            final(self).timer_msg_recv == old(self).timer_msg_recv,
    {
        self.timer_duration = Duration::from_secs(self.timer_config as u64);
    }
}

/// Over any run of frames the sequence number grows by one for each saved
/// image and by nothing else, so it never decreases; the other settings stay
/// as they were.
pub proof fn lemma_sequence_counts_saves(start: Settings, frames: Seq<(CaptureRequest, bool)>)
    ensures
        start.after_frames(frames) == (Settings {
            sequence: start.sequence + saved_count(frames),
            ..start
        }),
        start.after_frames(frames).sequence >= start.sequence,
    decreases frames.len(),
{
    if frames.len() > 0 {
        lemma_sequence_counts_saves(start, frames.drop_last());
    }
}

/// The sequence number after a longer run of frames is at least the one
/// after a shorter run.
pub proof fn lemma_sequence_monotonic(
    start: Settings,
    frames: Seq<(CaptureRequest, bool)>,
    i: int,
    j: int,
)
    requires
        0 <= i <= j <= frames.len(),
    ensures
        start.after_frames(frames.take(i)).sequence <= start.after_frames(frames.take(j)).sequence,
    decreases j - i,
{
    if i < j {
        lemma_sequence_monotonic(start, frames, i, j - 1);
        assert(frames.take(j).drop_last() =~= frames.take(j - 1));
    }
}

/// No sequence number is used twice: where every saved capture is asked for
/// under the sequence number of its frame, a later saved image has a greater
/// number than an earlier one.
pub proof fn lemma_saved_numbers_increase(
    start: Settings,
    frames: Seq<(CaptureRequest, bool)>,
    i: int,
    j: int,
)
    requires
        0 <= i < j < frames.len(),
        forall|k: int|
            0 <= k < frames.len() && frames[k].0 is Save ==> frames[k].0->Save_0
                == start.after_frames(frames.take(k)).sequence,
        image_saved(frames[i].0, frames[i].1),
        image_saved(frames[j].0, frames[j].1),
    ensures
        frames[i].0->Save_0 < frames[j].0->Save_0,
{
    assert(frames.take(i + 1).drop_last() =~= frames.take(i));
    assert(frames.take(i + 1).last() == frames[i]);
    lemma_sequence_monotonic(start, frames, i + 1, j);
}

/// The period that a start command carries is the period that the interval
/// controller reports as active once it has handled the command.
pub proof fn lemma_start_command_round_trip(settings: Settings, timer: TimerState)
    requires
        !settings.running,
    ensures
        timer.next(TimerEvent::Command(settings.timer_command())).interval == Some(
            settings.period,
        ),
{
}

/// The command that stops the timer leaves the interval controller disabled.
pub proof fn lemma_stop_command_disables(settings: Settings, timer: TimerState)
    requires
        settings.running,
    ensures
        timer.next(TimerEvent::Command(settings.timer_command())).interval is None,
{
}

} // verus!
