//! The closed set of failures that a call can end in, and the mapping from
//! HTTP status codes to them.
use vstd::prelude::*;
use crate::constants::Region;

verus! {

/// What went wrong below HTTP, before a status code was obtained.
#[derive(Debug, Clone, Copy, PartialEq, Eq, Structural)]
pub enum TransportFault {
    /// The HTTP client failed: connecting, sending or reading the body.
    Hyper,
    /// The TLS handshake failed.
    NativeTls,
    /// Reading or writing the socket failed.
    Io,
    /// The URL names a scheme other than `http` and `https`.
    UnsupportedScheme,
    /// The URL names no host.
    UrlNotParsed,
}

/// What is wrong with the configuration that a client was to be made from.
#[derive(Debug, Clone, Copy, PartialEq, Eq, Structural)]
pub enum ConfigFault {
    /// No API key was provided.
    NoToken,
    /// The API key does not have the shape of a Riot API token.
    WrongToken,
}

/// Why a call failed.
#[derive(Debug, Clone, Copy, PartialEq, Eq, Structural)]
pub enum ClientError {
    /// 400: bad request
    BadRequest,
    /// 401: unauthorized
    Unauthorized,
    /// 403: forbidden
    Forbidden,
    /// 404: data not found
    DataNotFound,
    /// 405: method not allowed
    MethodNotAllowed,
    /// 415: unsupported media type
    UnsupportedMediaType,
    /// 429: the rate limit was exceeded. The limit is not known and is
    /// reported as 0.
    RateLimitExceeded { limit: usize },
    /// 500: internal server error
    InternalServerError,
    /// 502: bad gateway
    BadGateway,
    /// 503: the API servers of `region` are on maintenance.
    ServiceUnavailable { region: Region },
    /// 504: gateway timeout
    GatewayTimeout,
    /// The request did not get as far as a status code.
    TransportError { fault: TransportFault },
    /// The client could not be made from what it was given.
    MalformedConfig { reason: ConfigFault },
    /// The response body does not have the shape that was asked for.
    DeserializationError,
}

impl ClientError {
    /// The error that a status code stands for, if it stands for one. Codes
    /// outside this table are not failures.
    pub open spec fn of_status(region: Region, code: u16) -> Option<ClientError> {
        if code == 400 {
            Some(ClientError::BadRequest)
        } else if code == 401 {
            Some(ClientError::Unauthorized)
        } else if code == 403 {
            Some(ClientError::Forbidden)
        } else if code == 404 {
            Some(ClientError::DataNotFound)
        } else if code == 405 {
            Some(ClientError::MethodNotAllowed)
        } else if code == 415 {
            Some(ClientError::UnsupportedMediaType)
        } else if code == 429 {
            Some(ClientError::RateLimitExceeded { limit: 0 })
        } else if code == 500 {
            Some(ClientError::InternalServerError)
        } else if code == 502 {
            Some(ClientError::BadGateway)
        } else if code == 503 {
            Some(ClientError::ServiceUnavailable { region })
        } else if code == 504 {
            Some(ClientError::GatewayTimeout)
        } else {
            None
        }
    }

    /// Maps a status code to its error; every code without one passes.
    pub fn check_status(region: Region, code: u16) -> (r: Result<(), ClientError>)
        ensures
            r == match Self::of_status(region, code) {
                Some(e) => Err::<(), ClientError>(e),
                None => Ok(()),
            },
    {
        match code {
            400 => Err(ClientError::BadRequest),
            401 => Err(ClientError::Unauthorized),
            403 => Err(ClientError::Forbidden),
            404 => Err(ClientError::DataNotFound),
            405 => Err(ClientError::MethodNotAllowed),
            415 => Err(ClientError::UnsupportedMediaType),
            429 => Err(ClientError::RateLimitExceeded { limit: 0 }),
            500 => Err(ClientError::InternalServerError),
            502 => Err(ClientError::BadGateway),
            503 => Err(ClientError::ServiceUnavailable { region }),
            504 => Err(ClientError::GatewayTimeout),
            _ => Ok(()),
        }
    }
}

} // verus!
