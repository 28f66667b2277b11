use whep_gateway::appcontext::AppContext;
use whep_gateway::error::{NegotiationError, SessionNotFound};
use whep_gateway::registry::ViewerSession;
use whep_gateway::streamdef::{find_stream, StreamsDef, BUS_CAPACITY};

fn context() -> AppContext<u8, u16, u32> {
    let streams = vec![
        StreamsDef::new("cam1".to_string(), "rtsp://10.0.0.1/a".to_string(), 1u8, 10u16),
        StreamsDef::new("cam2".to_string(), "rtsp://10.0.0.2/b".to_string(), 2u8, 20u16),
        StreamsDef::new("cam1".to_string(), "rtsp://10.0.0.3/c".to_string(), 3u8, 30u16),
    ];
    AppContext::new(streams, "stun:stun.example.org:3478".to_string())
}

#[test]
fn stream_definition_keeps_its_parts() {
    let stream = StreamsDef::new("cam1".to_string(), "rtsp://h/x".to_string(), 5u8, 6u16);
    assert_eq!(stream.name, "cam1");
    assert_eq!(stream.url, "rtsp://h/x");
    assert_eq!(stream.tx, 5);
    assert_eq!(stream.track, 6);
    assert_eq!(BUS_CAPACITY, 1024 * 1024);
}

#[test]
fn find_stream_gives_the_first_of_that_name() {
    let ctx = context();
    assert_eq!(find_stream(&ctx.streams, "cam1"), Some(0));
    assert_eq!(find_stream(&ctx.streams, "cam2"), Some(1));
    assert_eq!(find_stream(&ctx.streams, "cam3"), None);
    assert_eq!(find_stream(&ctx.streams, "CAM1"), None);
    assert_eq!(find_stream(&ctx.streams[..0], "cam1"), None);
}

#[test]
fn new_context_has_no_session() {
    let ctx = context();
    assert_eq!(ctx.streams.len(), 3);
    assert_eq!(ctx.stunurl, "stun:stun.example.org:3478");
    assert!(ctx.peers().is_empty());
}

#[test]
fn create_for_unknown_stream_is_refused_and_registers_nothing() {
    let ctx = context();
    let result = ctx.begin_create("nowhere", b"v=0\r\n".to_vec());
    assert_eq!(result.err(), Some(NegotiationError::StreamNotFound));
    assert!(ctx.peers().is_empty());
}

#[test]
fn unknown_stream_is_reported_before_a_malformed_offer() {
    let ctx = context();
    let result = ctx.begin_create("nowhere", vec![0xff, 0xfe]);
    assert_eq!(result.err(), Some(NegotiationError::StreamNotFound));
}

#[test]
fn offer_that_is_no_text_is_refused() {
    let ctx = context();
    let result = ctx.begin_create("cam1", vec![b'v', 0xff, 0xfe]);
    assert_eq!(result.err(), Some(NegotiationError::MalformedOffer));
}

#[test]
fn admitted_create_names_stream_servers_and_offer() {
    let ctx = context();
    let plan = ctx.begin_create("cam1", "v=0\r\no=- 1 1 IN IP4 0.0.0.0\r\n".as_bytes().to_vec()).unwrap();
    assert_eq!(plan.stream.url, "rtsp://10.0.0.1/a");
    assert_eq!(plan.stream.track, 10);
    assert_eq!(plan.ice_servers, vec!["stun:stun.example.org:3478".to_string()]);
    assert_eq!(plan.offer, "v=0\r\no=- 1 1 IN IP4 0.0.0.0\r\n");
    let other = ctx.begin_create("cam2", "é".as_bytes().to_vec()).unwrap();
    assert_eq!(other.stream.track, 20);
    assert_eq!(other.offer, "é");
}

#[test]
fn register_puts_the_session_under_the_id_given() {
    let mut ctx = context();
    assert_eq!(ctx.register("cam1".to_string(), "id-1".to_string(), 7), None);
    let expected = ViewerSession { id: "id-1".to_string(), connection: 7, stream_name: "cam1".to_string() };
    assert_eq!(ctx.peers(), &[expected]);
    assert_eq!(ctx.streams.len(), 3);
}

#[test]
fn register_under_a_live_id_hands_the_old_session_back() {
    let mut ctx = context();
    ctx.register("cam1".to_string(), "id-1".to_string(), 7);
    let replaced = ctx.register("cam2".to_string(), "id-1".to_string(), 8);
    assert_eq!(
        replaced,
        Some(ViewerSession { id: "id-1".to_string(), connection: 7, stream_name: "cam1".to_string() })
    );
    assert_eq!(ctx.peers().len(), 1);
    assert_eq!(ctx.peers()[0].connection, 8);
}

#[test]
fn create_then_teardown_leaves_the_registry_empty() {
    let mut ctx = context();
    let done = ctx.finish_create("cam1".to_string(), 42);
    assert_eq!(done.replaced, None);
    assert_eq!(ctx.peers().len(), 1);
    assert_eq!(ctx.peers()[0].id, done.id);
    let removed = ctx.teardown(&done.id).unwrap();
    assert_eq!(removed.connection, 42);
    assert_eq!(removed.stream_name, "cam1");
    assert_eq!(removed.id, done.id);
    assert!(ctx.peers().is_empty());
}

#[test]
fn fresh_ids_are_hyphenated_hex_of_36_characters() {
    let mut ctx = context();
    let done = ctx.finish_create("cam1".to_string(), 1);
    assert_eq!(done.id.len(), 36);
    for (i, c) in done.id.chars().enumerate() {
        if i == 8 || i == 13 || i == 18 || i == 23 {
            assert_eq!(c, '-');
        } else {
            assert!(c.is_ascii_hexdigit() && !c.is_ascii_uppercase());
        }
    }
}

#[test]
fn teardown_of_an_unknown_id_is_not_found_and_changes_nothing() {
    let mut ctx = context();
    let done = ctx.finish_create("cam1".to_string(), 1);
    assert_eq!(ctx.teardown("no-such-id"), Err(SessionNotFound));
    assert_eq!(ctx.teardown(""), Err(SessionNotFound));
    assert_eq!(ctx.peers().len(), 1);
    assert_eq!(ctx.peers()[0].id, done.id);
}

#[test]
fn second_teardown_of_one_id_is_not_found() {
    let mut ctx = context();
    let done = ctx.finish_create("cam1".to_string(), 1);
    assert!(ctx.teardown(&done.id).is_ok());
    assert_eq!(ctx.teardown(&done.id), Err(SessionNotFound));
}

#[test]
fn two_creates_for_different_streams_give_two_entries() {
    let mut ctx = context();
    let first = ctx.finish_create("cam1".to_string(), 1);
    let second = ctx.finish_create("cam2".to_string(), 2);
    assert_ne!(first.id, second.id);
    assert_eq!(first.replaced, None);
    assert_eq!(second.replaced, None);
    assert_eq!(ctx.peers().len(), 2);
    assert_eq!(ctx.connections.get(&first.id).unwrap().stream_name, "cam1");
    assert_eq!(ctx.connections.get(&second.id).unwrap().stream_name, "cam2");
    assert_eq!(ctx.connections.get(&first.id).unwrap().connection, 1);
    assert_eq!(ctx.connections.get(&second.id).unwrap().connection, 2);
}
