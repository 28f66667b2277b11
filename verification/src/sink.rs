//! The track sink: the one subscriber that feeds a stream's shared track.

use vstd::prelude::*;
use crate::frame::DataFrame;

verus! {

/// What the sink's subscription yields when it is asked for the next frame.
#[derive(Debug, PartialEq, Eq)]
pub enum BusEvent {
    /// The next frame.
    Frame { frame: DataFrame },
    /// Nothing has been published since the last frame was taken.
    Empty,
    /// The sink fell behind and this many frames were skipped.
    Lagged { skipped: u64 },
    /// The bus is closed and holds nothing more.
    Closed,
}

/// What the sink does about it.
#[derive(Debug, PartialEq, Eq)]
pub enum SinkAction {
    /// Write these bytes to the track as one sample.
    Write { data: Vec<u8> },
    /// Go on with the next frame.
    Resume,
    /// Wait until something is published.
    Wait,
    /// End the task.
    Stop,
}

/// Decides what the sink does with what its subscription yielded: a frame
/// is written to the track as it is, skipped frames are passed over in
/// silence, an empty bus is waited on, and a closed bus ends the sink.
pub fn sink_next(event: BusEvent) -> (action: SinkAction)
    ensures
        match event {
            BusEvent::Frame { frame } => action == (SinkAction::Write { data: frame.data }),
            BusEvent::Empty => action == SinkAction::Wait,
            BusEvent::Lagged { skipped } => action == SinkAction::Resume,
            BusEvent::Closed => action == SinkAction::Stop,
        },
{
    match event {
        BusEvent::Frame { frame } => SinkAction::Write { data: frame.data },
        BusEvent::Empty => SinkAction::Wait,
        BusEvent::Lagged { skipped } => SinkAction::Resume,
        BusEvent::Closed => SinkAction::Stop,
    }
}

} // verus!
