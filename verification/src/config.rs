//! Stream entries of the configuration.

use vstd::prelude::*;
use crate::error::ConfigError;
use crate::trusted::{parse_url, url_serialization};

verus! {

/// The address of a stream, from what parsing the entry's address gave:
/// an entry without an address defines no stream, nor does one whose
/// address was refused.
pub fn address_from(parsed: Option<Result<String, url::ParseError>>) -> (result: Result<
    String,
    ConfigError,
>)
    ensures
        result == match parsed {
            None => Err::<String, ConfigError>(ConfigError::MissingAddress),
            Some(Err(_)) => Err(ConfigError::BadAddress),
            Some(Ok(text)) => Ok(text),
        },
{
    match parsed {
        None => Err(ConfigError::MissingAddress),
        Some(Err(_)) => Err(ConfigError::BadAddress),
        Some(Ok(text)) => Ok(text),
    }
}

/// The address of the stream that an entry defines: the entry's address as
/// an absolute URL, serialized.
pub fn stream_address(video: Option<&str>) -> (result: Result<String, ConfigError>)
    ensures
        match video {
            None => result == Err::<String, ConfigError>(ConfigError::MissingAddress),
            Some(text) => match url_serialization(text@) {
                Some(address) => result is Ok && result->Ok_0@ == address,
                None => result == Err::<String, ConfigError>(ConfigError::BadAddress),
            },
        },
{
    match video {
        None => address_from(None),
        Some(text) => address_from(Some(parse_url(text))),
    }
}

} // verus!
