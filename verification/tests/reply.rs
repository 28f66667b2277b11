use whep_gateway::error::NegotiationError;
use whep_gateway::reply::{created_reply, rejected_reply, teardown_reply, ContentType};
use whep_gateway::loglevel::{log_level_name, logger_level, parse_log_level, LogLevel};
use whep_gateway::sink::{sink_next, BusEvent, SinkAction};
use whep_gateway::frame::{DataFrame, FrameMetadata, MediaKind};

#[test]
fn created_reply_carries_answer_and_location() {
    let reply = created_reply("v=0\r\n".to_string(), "1b4e28ba-2fa1-41d2-883f-0016d3cca427");
    assert_eq!(reply.status, 200);
    assert_eq!(reply.content_type, ContentType::Sdp);
    assert_eq!(
        reply.location,
        Some("/api/whep?peerid=1b4e28ba-2fa1-41d2-883f-0016d3cca427".to_string())
    );
    assert!(reply.expose_location);
    assert_eq!(reply.body, "v=0\r\n");
}

#[test]
fn rejected_reply_is_an_error_status_for_each_cause() {
    let not_found = rejected_reply(NegotiationError::StreamNotFound);
    assert_eq!(not_found.status, 404);
    assert_eq!(not_found.body, "Stream not found");
    let malformed = rejected_reply(NegotiationError::MalformedOffer);
    assert_eq!(malformed.status, 400);
    assert_eq!(malformed.body, "Malformed offer");
    let failed = rejected_reply(NegotiationError::EngineFailure);
    assert_eq!(failed.status, 500);
    assert_eq!(failed.body, "Negotiation failed");
    for reply in [not_found, malformed, failed] {
        assert_eq!(reply.content_type, ContentType::Json);
        assert_eq!(reply.location, None);
        assert!(!reply.expose_location);
    }
}

#[test]
fn teardown_reply_tells_removed_from_unknown() {
    let removed = teardown_reply(true);
    assert_eq!(removed.status, 200);
    assert_eq!(removed.body, "Connection removed");
    assert_eq!(removed.location, None);
    let unknown = teardown_reply(false);
    assert_eq!(unknown.status, 404);
    assert_eq!(unknown.body, "Connection not found");
    assert_eq!(unknown.content_type, ContentType::Json);
}

#[test]
fn log_levels_are_read_from_their_exact_names() {
    assert_eq!(parse_log_level("Off"), Some(LogLevel::Off));
    assert_eq!(parse_log_level("Error"), Some(LogLevel::Error));
    assert_eq!(parse_log_level("Warn"), Some(LogLevel::Warn));
    assert_eq!(parse_log_level("Info"), Some(LogLevel::Info));
    assert_eq!(parse_log_level("Debug"), Some(LogLevel::Debug));
    assert_eq!(parse_log_level("Trace"), Some(LogLevel::Trace));
    assert_eq!(parse_log_level("info"), None);
    assert_eq!(parse_log_level("WARN"), None);
    assert_eq!(parse_log_level(""), None);
    assert_eq!(parse_log_level("Verbose"), None);
}

#[test]
fn log_level_names_read_back() {
    let levels = [
        LogLevel::Off,
        LogLevel::Error,
        LogLevel::Warn,
        LogLevel::Info,
        LogLevel::Debug,
        LogLevel::Trace,
    ];
    let names = ["Off", "Error", "Warn", "Info", "Debug", "Trace"];
    for (level, name) in levels.iter().zip(names.iter()) {
        assert_eq!(log_level_name(*level), *name);
        assert_eq!(parse_log_level(log_level_name(*level)), Some(*level));
    }
}

#[test]
fn logger_level_changes_only_on_a_known_name() {
    assert_eq!(logger_level(LogLevel::Info, Some("Debug")), LogLevel::Debug);
    assert_eq!(logger_level(LogLevel::Info, Some("Off")), LogLevel::Off);
    assert_eq!(logger_level(LogLevel::Info, Some("loud")), LogLevel::Info);
    assert_eq!(logger_level(LogLevel::Warn, None), LogLevel::Warn);
}

#[test]
fn sink_writes_frames_and_survives_lag() {
    let frame = DataFrame {
        metadata: FrameMetadata { ts: 1, media: MediaKind::Video, codec: "avc1".to_string() },
        data: vec![0, 0, 0, 1, 0x65],
    };
    assert_eq!(sink_next(BusEvent::Frame { frame }), SinkAction::Write { data: vec![0, 0, 0, 1, 0x65] });
    assert_eq!(sink_next(BusEvent::Lagged { skipped: 12 }), SinkAction::Resume);
    assert_eq!(sink_next(BusEvent::Empty), SinkAction::Wait);
    assert_eq!(sink_next(BusEvent::Closed), SinkAction::Stop);
}
