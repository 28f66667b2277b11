//! What the signalling layer answers.

use vstd::prelude::*;
use vstd::string::StringExecFns;
use crate::error::NegotiationError;

verus! {

/// The kind of body that a reply carries.
#[derive(Debug, Clone, Copy, PartialEq, Eq, Structural)]
pub enum ContentType {
    /// A session description, sent as it is.
    Sdp,
    /// A message, sent as a JSON string.
    Json,
}

/// An answer to a signalling request.
#[derive(Debug, PartialEq, Eq)]
pub struct Reply {
    /// The HTTP status.
    pub status: u16,
    pub content_type: ContentType,
    /// Where the new session can be torn down.
    pub location: Option<String>,
    /// Whether the header that carries the location is exposed to scripts
    /// of other origins.
    pub expose_location: bool,
    pub body: String,
}

/// The address under which a session is torn down.
pub open spec fn location_of(id: Seq<char>) -> Seq<char> {
    "/api/whep?peerid="@ + id
}

/// The status that a refused negotiation is answered with: the fault is the
/// client's where the stream is unknown or the offer is no text, and the
/// server's where the media engine failed.
pub open spec fn rejection_status(error: NegotiationError) -> u16 {
    match error {
        NegotiationError::StreamNotFound => 404,
        NegotiationError::MalformedOffer => 400,
        NegotiationError::EngineFailure => 500,
    }
}

/// The message that a refused negotiation is answered with.
pub open spec fn rejection_message(error: NegotiationError) -> Seq<char> {
    match error {
        NegotiationError::StreamNotFound => "Stream not found"@,
        NegotiationError::MalformedOffer => "Malformed offer"@,
        NegotiationError::EngineFailure => "Negotiation failed"@,
    }
}

/// The reply to a Create that has registered a session: the answer as the
/// body, and the session's address in a header that scripts may read.
pub fn created_reply(answer: String, id: &str) -> (reply: Reply)
    ensures
        reply.status == 200,
        reply.content_type == ContentType::Sdp,
        reply.location is Some,
        reply.location->Some_0@ == location_of(id@),
        reply.expose_location,
        reply.body == answer,
{
    let mut location: String = "/api/whep?peerid=".to_owned();
    location.append(id);
    Reply {
        status: 200,
        content_type: ContentType::Sdp,
        location: Some(location),
        expose_location: true,
        body: answer,
    }
}

/// The reply to a Create that was refused.
pub fn rejected_reply(error: NegotiationError) -> (reply: Reply)
    ensures
        reply.status == rejection_status(error),
        400 <= reply.status < 600,
        reply.content_type == ContentType::Json,
        reply.location is None,
        !reply.expose_location,
        reply.body@ == rejection_message(error),
{
    match error {
        NegotiationError::StreamNotFound => Reply {
            status: 404,
            content_type: ContentType::Json,
            location: None,
            expose_location: false,
            body: "Stream not found".to_owned(),
        },
        NegotiationError::MalformedOffer => Reply {
            status: 400,
            content_type: ContentType::Json,
            location: None,
            expose_location: false,
            body: "Malformed offer".to_owned(),
        },
        NegotiationError::EngineFailure => Reply {
            status: 500,
            content_type: ContentType::Json,
            location: None,
            expose_location: false,
            body: "Negotiation failed".to_owned(),
        },
    }
}

/// The reply to a Teardown: success where a session was removed, and
/// not-found where the id was unknown.
pub fn teardown_reply(removed: bool) -> (reply: Reply)
    ensures
        reply.status == if removed { 200u16 } else { 404u16 },
        reply.content_type == ContentType::Json,
        reply.location is None,
        !reply.expose_location,
        reply.body@ == if removed { "Connection removed"@ } else { "Connection not found"@ },
{
    if removed {
        Reply {
            status: 200,
            content_type: ContentType::Json,
            location: None,
            expose_location: false,
            body: "Connection removed".to_owned(),
        }
    } else {
        Reply {
            status: 404,
            content_type: ContentType::Json,
            location: None,
            expose_location: false,
            body: "Connection not found".to_owned(),
        }
    }
}

} // verus!
