//! Coordination core of an interval webcam capture tool.
//!
//! A timer task and a render loop talk over two unbounded channels: commands
//! go to the timer, ticks come back. This crate holds what the two sides
//! decide, with none of the waiting, camera or window handling around it:
//!
//! - [`timer`]: the messages on the two channels;
//! - [`channel`]: the non-blocking calls on the channels;
//! - [`controller`]: the timer task's state machine;
//! - [`capture`]: the render loop's state and its decision in each frame;
//! - [`naming`]: the names of the saved images;
//! - [`clock`]: timer periods written and read as `HH:MM:SS`.

pub mod capture;
pub mod channel;
pub mod clock;
pub mod controller;
pub mod naming;
pub mod timer;
