//! The stream source: what one ingestion task decides, step by step.

use vstd::prelude::*;
use crate::error::{BitstreamError, IngestionError};
use crate::frame::{frame_payload, process_video_frame, AccessUnit, CodecParameters, DataFrame, MediaKind};
use crate::text::same_text;
use crate::trusted::{default_transport, parse_transport_name};

verus! {

/// How the camera is asked to send its packets.
#[derive(Debug, Clone, Copy, PartialEq, Eq, Structural)]
pub enum TransportKind {
    Tcp,
    Udp,
}

/// The transport that a text names.
pub open spec fn transport_named(name: Seq<char>) -> Option<TransportKind> {
    if name == "tcp"@ {
        Some(TransportKind::Tcp)
    } else if name == "udp"@ {
        Some(TransportKind::Udp)
    } else {
        None
    }
}

/// The transport to ask for: the one named, or TCP where none is named.
/// A text that names no transport is refused.
pub fn choose_transport(name: Option<&str>) -> (result: Result<TransportKind, IngestionError>)
    ensures
        result == match name {
            None => Ok::<TransportKind, IngestionError>(TransportKind::Tcp),
            Some(text) => match transport_named(text@) {
                Some(kind) => Ok(kind),
                None => Err(IngestionError::BadTransport),
            },
        },
{
    match name {
        None => Ok(default_transport()),
        Some(text) => match parse_transport_name(text) {
            Some(kind) => Ok(kind),
            None => Err(IngestionError::BadTransport),
        },
    }
}

/// One substream of a described session.
#[derive(Debug, PartialEq, Eq)]
pub struct MediaStream {
    /// The kind of media, such as `video` or `audio`.
    pub media: String,
    /// The encoding's name, in lower case, such as `h264`.
    pub encoding_name: String,
}

/// Whether a substream is video in an encoding that is handled here.
pub open spec fn is_supported_video(stream: MediaStream) -> bool {
    stream.media@ == "video"@ && (stream.encoding_name@ == "h264"@ || stream.encoding_name@
        == "h265"@)
}

/// The substream at `i` is supported video, and none before it is.
pub open spec fn is_first_video(streams: Seq<MediaStream>, i: int) -> bool {
    &&& 0 <= i < streams.len()
    &&& is_supported_video(streams[i])
    &&& forall|k: int| 0 <= k < i ==> !is_supported_video(#[trigger] streams[k])
}

/// No substream is supported video.
pub open spec fn no_video(streams: Seq<MediaStream>) -> bool {
    forall|k: int| 0 <= k < streams.len() ==> !is_supported_video(#[trigger] streams[k])
}

/// Picks the first substream that is video in a supported encoding.
pub fn select_video_stream(streams: &[MediaStream]) -> (found: Option<usize>)
    ensures
        match found {
            Some(i) => is_first_video(streams@, i as int),
            None => no_video(streams@),
        },
{
    let mut i: usize = 0;
    while i < streams.len()
        invariant
            i <= streams@.len(),
            forall|k: int| 0 <= k < i ==> !is_supported_video(#[trigger] streams@[k]),
        decreases streams@.len() - i,
    {
        let stream = &streams[i];
        if same_text(stream.media.as_str(), "video") && (same_text(
            stream.encoding_name.as_str(),
            "h264",
        ) || same_text(stream.encoding_name.as_str(), "h265")) {
            return Some(i);
        }
        i += 1;
    }
    None
}

/// Where a stream's ingestion stands.
#[derive(Debug, PartialEq, Eq)]
pub enum SourceState {
    /// Nothing has been exchanged with the camera yet.
    Connecting,
    /// The camera has been asked to describe its session.
    Describing,
    /// The substream at `stream` is being set up.
    SettingUp { stream: usize },
    /// Access units arrive and are published.
    Playing { params: CodecParameters },
    /// Ingestion is over, for good.
    Stopped,
}

/// What the ingestion side reports to the source.
#[derive(Debug, PartialEq, Eq)]
pub enum SourceEvent {
    /// The camera has been reached.
    Connected,
    /// The session has been described; these are its substreams.
    Described { streams: Vec<MediaStream> },
    /// The chosen substream is set up; these are its parameters, if it has any.
    SetUp { params: Option<CodecParameters> },
    /// A video access unit has arrived.
    Unit { unit: AccessUnit },
    /// Something else than a video access unit has arrived.
    OtherItem,
    /// The stream has ended.
    EndOfStream,
    /// The session has failed.
    Failed,
    /// The process is shutting down.
    Shutdown,
}

/// What the source wants done next.
#[derive(Debug, PartialEq, Eq)]
pub enum SourceAction {
    /// Ask the camera to describe its session.
    Describe,
    /// Set up the substream at `stream` over `transport`.
    SetUp { stream: usize, transport: TransportKind },
    /// Start playing.
    Play,
    /// Publish the frame on the stream's bus.
    Publish { frame: DataFrame },
    /// The access unit was faulty and is dropped.
    Discard { cause: BitstreamError },
    /// Nothing.
    Ignore,
    /// Tear the session down and end the task with this outcome.
    Finish { outcome: Result<(), IngestionError> },
}

/// The one step that the source takes from `state` on `event`: it goes to
/// `next` and wants `action` done.
///
/// A stopped source stays stopped. A failure, the end of the stream or a
/// shutdown stops the source from any other state. Each of the remaining
/// events advances the source from the one state that waits for it, and is
/// passed over in every other state.
pub open spec fn source_step(
    state: SourceState,
    event: SourceEvent,
    transport: TransportKind,
    next: SourceState,
    action: SourceAction,
) -> bool {
    match (state, event) {
        (SourceState::Stopped, _) => next == SourceState::Stopped && action == SourceAction::Ignore,
        (_, SourceEvent::Failed) => next == SourceState::Stopped && action == (SourceAction::Finish {
            outcome: Err(IngestionError::SessionFailed),
        }),
        (_, SourceEvent::EndOfStream) => next == SourceState::Stopped && action
            == (SourceAction::Finish { outcome: Err(IngestionError::EndOfStream) }),
        (_, SourceEvent::Shutdown) => next == SourceState::Stopped && action == (SourceAction::Finish {
            outcome: Ok(()),
        }),
        (SourceState::Connecting, SourceEvent::Connected) => next == SourceState::Describing
            && action == SourceAction::Describe,
        (SourceState::Describing, SourceEvent::Described { streams }) => {
            if no_video(streams@) {
                next == SourceState::Stopped && action == (SourceAction::Finish {
                    outcome: Err(IngestionError::NoVideoStream),
                })
            } else {
                exists|i: int|
                    is_first_video(streams@, i) && next == (SourceState::SettingUp {
                        stream: i as usize,
                    }) && action == (SourceAction::SetUp { stream: i as usize, transport })
            }
        },
        (SourceState::SettingUp { stream }, SourceEvent::SetUp { params }) => match params {
            Some(found) => next == (SourceState::Playing { params: found }) && action
                == SourceAction::Play,
            None => next == SourceState::Stopped && action == (SourceAction::Finish {
                outcome: Err(IngestionError::NoVideoParameters),
            }),
        },
        (SourceState::Playing { params }, SourceEvent::Unit { unit }) => {
            &&& next == state
            &&& match frame_payload(
                unit.random_access_point,
                params.codec@,
                params.extra_data@,
                unit.data@,
            ) {
                Ok(payload) => {
                    &&& action is Publish
                    &&& action->frame.data@ == payload
                    &&& action->frame.metadata.ts == unit.timestamp
                    &&& action->frame.metadata.media == MediaKind::Video
                    &&& action->frame.metadata.codec@ == params.codec@
                },
                Err(e) => action == (SourceAction::Discard { cause: e }),
            }
        },
        _ => next == state && action == SourceAction::Ignore,
    }
}

/// Takes one step of a stream's ingestion.
pub fn source_next(state: SourceState, event: SourceEvent, transport: TransportKind) -> (step: (
    SourceState,
    SourceAction,
))
    ensures
        source_step(state, event, transport, step.0, step.1),
{
    match (state, event) {
        (SourceState::Stopped, _) => (SourceState::Stopped, SourceAction::Ignore),
        (_, SourceEvent::Failed) => (
            SourceState::Stopped,
            SourceAction::Finish { outcome: Err(IngestionError::SessionFailed) },
        ),
        (_, SourceEvent::EndOfStream) => (
            SourceState::Stopped,
            SourceAction::Finish { outcome: Err(IngestionError::EndOfStream) },
        ),
        (_, SourceEvent::Shutdown) => (SourceState::Stopped, SourceAction::Finish { outcome: Ok(()) }),
        (SourceState::Connecting, SourceEvent::Connected) => (
            SourceState::Describing,
            SourceAction::Describe,
        ),
        (SourceState::Describing, SourceEvent::Described { streams }) => {
            match select_video_stream(streams.as_slice()) {
                Some(stream) => (
                    SourceState::SettingUp { stream },
                    SourceAction::SetUp { stream, transport },
                ),
                None => (
                    SourceState::Stopped,
                    SourceAction::Finish { outcome: Err(IngestionError::NoVideoStream) },
                ),
            }
        },
        (SourceState::SettingUp { stream }, SourceEvent::SetUp { params }) => match params {
            Some(found) => (SourceState::Playing { params: found }, SourceAction::Play),
            None => (
                SourceState::Stopped,
                SourceAction::Finish { outcome: Err(IngestionError::NoVideoParameters) },
            ),
        },
        (SourceState::Playing { params }, SourceEvent::Unit { unit }) => {
            let action = match process_video_frame(&unit, &params) {
                Ok(frame) => SourceAction::Publish { frame },
                Err(cause) => SourceAction::Discard { cause },
            };
            (SourceState::Playing { params }, action)
        },
        (state, _) => (state, SourceAction::Ignore),
    }
}

/// Once ingestion has stopped it stays stopped: nothing restarts it.
pub proof fn lemma_stopped_is_final(
    event: SourceEvent,
    transport: TransportKind,
    next: SourceState,
    action: SourceAction,
)
    requires
        source_step(SourceState::Stopped, event, transport, next, action),
    ensures
        next == SourceState::Stopped,
        action == SourceAction::Ignore,
{
}

/// A failure of the session or the end of the stream ends ingestion, from
/// whatever state it is met in, and the session is torn down.
pub proof fn lemma_failure_stops(
    state: SourceState,
    event: SourceEvent,
    transport: TransportKind,
    next: SourceState,
    action: SourceAction,
)
    requires
        state != SourceState::Stopped,
        event is Failed || event is EndOfStream,
        source_step(state, event, transport, next, action),
    ensures
        next == SourceState::Stopped,
        action is Finish,
        action->outcome is Err,
{
}

/// A faulty access unit is dropped and ingestion goes on: while playing, an
/// access unit never changes the state.
pub proof fn lemma_unit_keeps_playing(
    state: SourceState,
    unit: AccessUnit,
    transport: TransportKind,
    next: SourceState,
    action: SourceAction,
)
    requires
        state is Playing,
        source_step(state, SourceEvent::Unit { unit }, transport, next, action),
    ensures
        next == state,
        action is Publish || action is Discard,
{
}

/// A frame is published only while playing, and only for an access unit.
pub proof fn lemma_publish_only_while_playing(
    state: SourceState,
    event: SourceEvent,
    transport: TransportKind,
    next: SourceState,
    action: SourceAction,
)
    requires
        source_step(state, event, transport, next, action),
        action is Publish,
    ensures
        state is Playing,
        event is Unit,
{
}

} // verus!
