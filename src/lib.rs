//! Bounded concurrent recording of audio streams: the work-queue protocol of a
//! fixed-size worker pool, the decisions of one time-bounded recording task,
//! and the names, paths and addresses that the stream catalog yields.

pub mod catalog;
pub mod dispatch;
pub mod recording;

pub use dispatch::{Dispatch, Message};
pub use recording::{Action, Event, Outcome, Phase, Recording, RecordingError};
pub use catalog::{Listener, Page, Place, Stream};
