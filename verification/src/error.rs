//! The failures that the client reports.

use crate::text::{joined, decimal, decimal_text};
use vstd::prelude::*;
use vstd::string::*;

verus! {

/// What a failure is, with its texts as character sequences. Both error
/// types of the library have this as their view.
pub enum Failure {
    /// The exchange did not complete: connection, timeout, unreadable body.
    Http(Seq<char>),
    /// The server answered with a status outside the success range.
    Api { status: u16, body: Seq<char> },
    /// The body was not of the expected shape.
    Deserialize(Seq<char>),
    /// The server answered 429.
    RateLimited { retry_after_secs: u64 },
    /// The client was configured with something it cannot use.
    Config(Seq<char>),
    /// Connecting, sending, receiving or closing a stream failed.
    WebSocket(Seq<char>),
}

/// A failure of the generic REST and streaming layer.
#[derive(Debug)]
pub enum ApiClientError {
    Http(String),
    Api { status: u16, body: String },
    Deserialize(String),
    RateLimited { retry_after_secs: u64 },
    Config(String),
    WebSocket(String),
}

impl View for ApiClientError {
    type V = Failure;

    open spec fn view(&self) -> Failure {
        match self {
            ApiClientError::Http(detail) => Failure::Http(detail@),
            ApiClientError::Api { status, body } => Failure::Api { status: *status, body: body@ },
            ApiClientError::Deserialize(detail) => Failure::Deserialize(detail@),
            ApiClientError::RateLimited { retry_after_secs } => Failure::RateLimited {
                retry_after_secs: *retry_after_secs,
            },
            ApiClientError::Config(detail) => Failure::Config(detail@),
            ApiClientError::WebSocket(detail) => Failure::WebSocket(detail@),
        }
    }
}

/// A failure of an Alpaca operation.
#[derive(Debug)]
pub enum AlpacaError {
    Http(String),
    Api { status: u16, body: String },
    Deserialize(String),
    RateLimited { retry_after_secs: u64 },
    Config(String),
    WebSocket(String),
}

impl View for AlpacaError {
    type V = Failure;

    open spec fn view(&self) -> Failure {
        match self {
            AlpacaError::Http(detail) => Failure::Http(detail@),
            AlpacaError::Api { status, body } => Failure::Api { status: *status, body: body@ },
            AlpacaError::Deserialize(detail) => Failure::Deserialize(detail@),
            AlpacaError::RateLimited { retry_after_secs } => Failure::RateLimited {
                retry_after_secs: *retry_after_secs,
            },
            AlpacaError::Config(detail) => Failure::Config(detail@),
            AlpacaError::WebSocket(detail) => Failure::WebSocket(detail@),
        }
    }
}

impl From<ApiClientError> for AlpacaError {
    /// The same failure, kind for kind, with its data unchanged.
    fn from(err: ApiClientError) -> (converted: AlpacaError) {
        match err {
            ApiClientError::Http(detail) => AlpacaError::Http(detail),
            ApiClientError::Api { status, body } => AlpacaError::Api { status, body },
            ApiClientError::Deserialize(detail) => AlpacaError::Deserialize(detail),
            ApiClientError::RateLimited { retry_after_secs } => AlpacaError::RateLimited {
                retry_after_secs,
            },
            ApiClientError::Config(detail) => AlpacaError::Config(detail),
            ApiClientError::WebSocket(detail) => AlpacaError::WebSocket(detail),
        }
    }
}

impl vstd::std_specs::convert::FromSpecImpl<ApiClientError> for AlpacaError {
    open spec fn obeys_from_spec() -> bool {
        true
    }

    open spec fn from_spec(err: ApiClientError) -> AlpacaError {
        match err {
            ApiClientError::Http(detail) => AlpacaError::Http(detail),
            ApiClientError::Api { status, body } => AlpacaError::Api { status, body },
            ApiClientError::Deserialize(detail) => AlpacaError::Deserialize(detail),
            ApiClientError::RateLimited { retry_after_secs } => AlpacaError::RateLimited {
                retry_after_secs,
            },
            ApiClientError::Config(detail) => AlpacaError::Config(detail),
            ApiClientError::WebSocket(detail) => AlpacaError::WebSocket(detail),
        }
    }
}

/// Converting a generic failure into an Alpaca failure keeps what it says.
pub proof fn conversion_keeps_failure(err: ApiClientError)
    ensures
        <AlpacaError as vstd::std_specs::convert::FromSpec<ApiClientError>>::from_spec(err)@
            == err@,
{
}

/// The one-line description of a failure.
pub open spec fn message_text(failure: Failure) -> Seq<char> {
    match failure {
        Failure::Http(detail) => "HTTP error: "@ + detail,
        Failure::Api { status, body } => "Alpaca API error "@ + decimal(status as nat) + ": "@
            + body,
        Failure::Deserialize(detail) => "JSON deserialization error: "@ + detail,
        Failure::RateLimited { retry_after_secs } => "Rate limited, retry after "@ + decimal(
            retry_after_secs as nat,
        ) + "s"@,
        Failure::Config(detail) => "Configuration error: "@ + detail,
        Failure::WebSocket(detail) => "WebSocket error: "@ + detail,
    }
}

impl AlpacaError {
    /// The one-line description of this failure.
    pub fn message(&self) -> (text: String)
        ensures
            text@ == message_text(self@),
    {
        match self {
            AlpacaError::Http(detail) => joined("HTTP error: ", detail.as_str()),
            AlpacaError::Api { status, body } => {
                let mut text = joined("Alpaca API error ", decimal_text(*status as u64).as_str());
                text.append(": ");
                text.append(body.as_str());
                text
            },
            AlpacaError::Deserialize(detail) => joined(
                "JSON deserialization error: ",
                detail.as_str(),
            ),
            AlpacaError::RateLimited { retry_after_secs } => {
                let mut text = joined(
                    "Rate limited, retry after ",
                    decimal_text(*retry_after_secs).as_str(),
                );
                text.append("s");
                text
            },
            AlpacaError::Config(detail) => joined("Configuration error: ", detail.as_str()),
            AlpacaError::WebSocket(detail) => joined("WebSocket error: ", detail.as_str()),
        }
    }
}

} // verus!
