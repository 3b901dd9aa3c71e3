//! The errors of the session store.

use vstd::prelude::*;
use vstd::std_specs::convert::FromSpecImpl;

verus! {

/// Errors that can arise in the operation of the session store.
#[derive(Debug)]
#[non_exhaustive]
pub enum Error {
    /// The backend failed: the connection, the protocol, or the address.
    Redis(redis::RedisError),
    /// A session could not be written as a record, or a record not read.
    SerdeJson(serde_json::Error),
    /// A cookie value could not be decoded.
    Base64(base64::DecodeError),
}

impl From<redis::RedisError> for Error {
    fn from(error: redis::RedisError) -> (r: Error) {
        Error::Redis(error)
    }
}

impl FromSpecImpl<redis::RedisError> for Error {
    open spec fn obeys_from_spec() -> bool {
        true
    }

    open spec fn from_spec(error: redis::RedisError) -> Error {
        Error::Redis(error)
    }
}

impl From<serde_json::Error> for Error {
    fn from(error: serde_json::Error) -> (r: Error) {
        Error::SerdeJson(error)
    }
}

impl FromSpecImpl<serde_json::Error> for Error {
    open spec fn obeys_from_spec() -> bool {
        true
    }

    open spec fn from_spec(error: serde_json::Error) -> Error {
        Error::SerdeJson(error)
    }
}

impl From<base64::DecodeError> for Error {
    fn from(error: base64::DecodeError) -> (r: Error) {
        Error::Base64(error)
    }
}

impl FromSpecImpl<base64::DecodeError> for Error {
    open spec fn obeys_from_spec() -> bool {
        true
    }

    open spec fn from_spec(error: base64::DecodeError) -> Error {
        Error::Base64(error)
    }
}

impl Error {
    /// Passes a backend answer on, with a backend failure as [`Error::Redis`].
    pub fn backend<T>(answer: Result<T, redis::RedisError>) -> (r: Result<T, Error>)
        ensures
            r == match answer {
                Ok(value) => Ok::<T, Error>(value),
                Err(error) => Err::<T, Error>(Error::Redis(error)),
            },
    {
        match answer {
            Ok(value) => Ok(value),
            Err(error) => Err(Error::Redis(error)),
        }
    }
}

} // verus!
