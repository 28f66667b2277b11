use whep_gateway::config::{address_from, stream_address};
use whep_gateway::error::ConfigError;

#[test]
fn entry_without_address_defines_no_stream() {
    assert_eq!(stream_address(None), Err(ConfigError::MissingAddress));
    assert_eq!(address_from(None), Err(ConfigError::MissingAddress));
}

#[test]
fn entry_with_a_refused_address_defines_no_stream() {
    assert_eq!(stream_address(Some("")), Err(ConfigError::BadAddress));
    assert_eq!(stream_address(Some("camera/1")), Err(ConfigError::BadAddress));
    assert_eq!(stream_address(Some("http://")), Err(ConfigError::BadAddress));
    assert_eq!(stream_address(Some("://camera")), Err(ConfigError::BadAddress));
    assert_eq!(
        address_from(Some(Err(url::ParseError::RelativeUrlWithoutBase))),
        Err(ConfigError::BadAddress)
    );
}

#[test]
fn address_is_the_serialized_url() {
    assert_eq!(
        stream_address(Some("rtsp://10.0.0.1:554/stream1")),
        Ok("rtsp://10.0.0.1:554/stream1".to_string())
    );
    assert_eq!(
        stream_address(Some("RTSP://Camera.Example.ORG/a b")),
        Ok("rtsp://Camera.Example.ORG/a%20b".to_string())
    );
    assert_eq!(stream_address(Some("http://EXAMPLE.org")), Ok("http://example.org/".to_string()));
    assert_eq!(address_from(Some(Ok("rtsp://h/x".to_string()))), Ok("rtsp://h/x".to_string()));
}
