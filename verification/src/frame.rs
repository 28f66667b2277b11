//! Frames: what one decoded access unit becomes on the bus.

use vstd::prelude::*;
use crate::annexb::{avcc_to_annex_b, avcc_units};
use crate::bytes::{join_with_marker, lemma_join_concat};
use crate::error::BitstreamError;
use crate::params::{parameter_sets, parse_codec_config};

verus! {

/// The kind of media that a frame carries.
#[derive(Debug, Clone, Copy, PartialEq, Eq, Structural)]
pub enum MediaKind {
    Video,
}

/// One decoded access unit as the ingestion side hands it over.
#[derive(Debug, Clone, PartialEq, Eq)]
pub struct AccessUnit {
    /// Capture timestamp, in the units of the stream's clock.
    pub timestamp: i64,
    /// Whether a decoder can start from this unit.
    pub random_access_point: bool,
    /// The unit's NAL units, each behind a four-byte big-endian length.
    pub data: Vec<u8>,
}

/// The out-of-band parameters of a video stream.
#[derive(Debug, Clone, PartialEq, Eq)]
pub struct CodecParameters {
    /// Codec identifier, such as `avc1.64001f`.
    pub codec: String,
    /// The codec's configuration record.
    pub extra_data: Vec<u8>,
}

/// What is known of a frame besides its bytes.
#[derive(Debug, Clone, PartialEq, Eq)]
pub struct FrameMetadata {
    /// Capture timestamp of the access unit, in the units of the stream's clock.
    pub ts: i64,
    pub media: MediaKind,
    pub codec: String,
}

/// A frame as it travels over the bus.
#[derive(Debug, Clone, PartialEq, Eq)]
pub struct DataFrame {
    pub metadata: FrameMetadata,
    /// The payload: a start-code stream.
    pub data: Vec<u8>,
}

/// A frame as contracts speak of it: its parts by their own views.
pub struct FrameView {
    pub ts: i64,
    pub media: MediaKind,
    pub codec: Seq<char>,
    pub data: Seq<u8>,
}

impl View for DataFrame {
    type V = FrameView;

    open spec fn view(&self) -> FrameView {
        FrameView {
            ts: self.metadata.ts,
            media: self.metadata.media,
            codec: self.metadata.codec@,
            data: self.data@,
        }
    }
}

/// The payload of the frame made from an access unit: at a random-access
/// point the parameter sets come first, each behind the marker; then the
/// unit's own NAL units, each behind the marker. A fault in the parameter
/// sets is reported before one in the access unit.
pub open spec fn frame_payload(
    random_access_point: bool,
    codec: Seq<char>,
    extra_data: Seq<u8>,
    data: Seq<u8>,
) -> Result<Seq<u8>, BitstreamError> {
    if random_access_point {
        match parameter_sets(codec, extra_data) {
            Err(e) => Err(e),
            Ok(sets) => match avcc_units(data) {
                Err(e) => Err(e),
                Ok(units) => Ok(join_with_marker(sets) + join_with_marker(units)),
            },
        }
    } else {
        match avcc_units(data) {
            Err(e) => Err(e),
            Ok(units) => Ok(join_with_marker(units)),
        }
    }
}

/// Builds the frame for one access unit. On a fault nothing is built: the
/// caller drops the unit and goes on with the next.
pub fn process_video_frame(m: &AccessUnit, video_params: &CodecParameters) -> (result: Result<
    DataFrame,
    BitstreamError,
>)
    ensures
        match frame_payload(
            m.random_access_point,
            video_params.codec@,
            video_params.extra_data@,
            m.data@,
        ) {
            Ok(payload) => result is Ok && result->Ok_0.data@ == payload
                && result->Ok_0.metadata.ts == m.timestamp
                && result->Ok_0.metadata.media == MediaKind::Video
                && result->Ok_0.metadata.codec@ == video_params.codec@,
            Err(e) => result == Err::<DataFrame, BitstreamError>(e),
        },
{
    let mut data: Vec<u8> = Vec::new();
    if m.random_access_point {
        match parse_codec_config(video_params.codec.as_str(), video_params.extra_data.as_slice()) {
            Ok(cfg) => {
                data = cfg;
            },
            Err(e) => {
                return Err(e);
            },
        }
    }
    match avcc_to_annex_b(m.data.as_slice()) {
        Ok(mut nal_units) => {
            data.append(&mut nal_units);
        },
        Err(e) => {
            return Err(e);
        },
    }
    let metadata = FrameMetadata {
        ts: m.timestamp,
        media: MediaKind::Video,
        codec: video_params.codec.clone(),
    };
    Ok(DataFrame { metadata, data })
}

/// The payload of a random-access point is one start-code stream: the
/// parameter sets and then the unit's own NAL units, each behind the
/// marker. That of any other unit holds the unit's NAL units alone.
pub proof fn lemma_payload_is_one_stream(
    random_access_point: bool,
    codec: Seq<char>,
    extra_data: Seq<u8>,
    data: Seq<u8>,
)
    requires
        frame_payload(random_access_point, codec, extra_data, data) is Ok,
    ensures
        avcc_units(data) is Ok,
        random_access_point ==> parameter_sets(codec, extra_data) is Ok,
        frame_payload(random_access_point, codec, extra_data, data)->Ok_0 == join_with_marker(
            if random_access_point {
                parameter_sets(codec, extra_data)->Ok_0 + avcc_units(data)->Ok_0
            } else {
                avcc_units(data)->Ok_0
            },
        ),
{
    if random_access_point {
        lemma_join_concat(parameter_sets(codec, extra_data)->Ok_0, avcc_units(data)->Ok_0);
    }
}

} // verus!
