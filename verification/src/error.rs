//! Error values of the client.

use vstd::prelude::*;
use crate::text::decimal_string;
use crate::text::decimal;

verus! {

/// Every failure the client reports. Failures that arise in the transport
/// layers (HTTP, JSON, WebSocket, files, URLs) carry the text of the
/// underlying error.
#[derive(Debug)]
pub enum SchwabError {
    /// HTTP request error
    Http(String),
    /// JSON serialization/deserialization error
    Json(String),
    /// WebSocket error
    WebSocket(String),
    /// Authentication error
    Auth(String),
    /// Token management error
    Token(String),
    /// API error response
    Api { status: u16, message: String },
    /// Invalid parameter error
    InvalidParameter(String),
    /// Configuration error
    Config(String),
    /// IO error
    Io(String),
    /// URL parsing error
    Url(String),
    /// Missing required field
    MissingField(String),
    /// Invalid format
    InvalidFormat(String),
    /// Stream error
    Stream(String),
    /// Generic error
    Generic(String),
}

/// The human-readable text of an error.
pub open spec fn error_text(e: SchwabError) -> Seq<char> {
    match e {
        SchwabError::Http(m) => "HTTP request failed: "@ + m@,
        SchwabError::Json(m) => "JSON error: "@ + m@,
        SchwabError::WebSocket(m) => "WebSocket error: "@ + m@,
        SchwabError::Auth(m) => "Authentication error: "@ + m@,
        SchwabError::Token(m) => "Token error: "@ + m@,
        SchwabError::Api { status, message } => "API error: "@ + decimal(status as int) + " - "@
            + message@,
        SchwabError::InvalidParameter(m) => "Invalid parameter: "@ + m@,
        SchwabError::Config(m) => "Configuration error: "@ + m@,
        SchwabError::Io(m) => "IO error: "@ + m@,
        SchwabError::Url(m) => "URL parsing error: "@ + m@,
        SchwabError::MissingField(m) => "Missing required field: "@ + m@,
        SchwabError::InvalidFormat(m) => "Invalid format: "@ + m@,
        SchwabError::Stream(m) => "Stream error: "@ + m@,
        SchwabError::Generic(m) => "Error: "@ + m@,
    }
}

/// `e` is an authentication error whose text is `msg`.
pub open spec fn is_auth_error(e: SchwabError, msg: Seq<char>) -> bool {
    e matches SchwabError::Auth(m) && m@ == msg
}

/// `e` is a token error whose text is `msg`.
pub open spec fn is_token_error(e: SchwabError, msg: Seq<char>) -> bool {
    e matches SchwabError::Token(m) && m@ == msg
}

/// `e` is a configuration error whose text is `msg`.
pub open spec fn is_config_error(e: SchwabError, msg: Seq<char>) -> bool {
    e matches SchwabError::Config(m) && m@ == msg
}

/// `e` is a stream error whose text is `msg`.
pub open spec fn is_stream_error(e: SchwabError, msg: Seq<char>) -> bool {
    e matches SchwabError::Stream(m) && m@ == msg
}

/// `e` is a generic error whose text is `msg`.
pub open spec fn is_generic_error(e: SchwabError, msg: Seq<char>) -> bool {
    e matches SchwabError::Generic(m) && m@ == msg
}

/// `e` is an API error with this status and text.
pub open spec fn is_api_error(e: SchwabError, status: u16, msg: Seq<char>) -> bool {
    e matches SchwabError::Api { status: s, message: m } && s == status && m@ == msg
}

fn prefixed(prefix: &str, m: &String) -> (s: String)
    ensures
        s@ == prefix@ + m@,
{
    let mut s = prefix.to_owned();
    s.append(m.as_str());
    s
}

impl SchwabError {
    /// Create a new authentication error
    pub fn auth(msg: &str) -> (e: Self)
        ensures
            is_auth_error(e, msg@),
    {
        SchwabError::Auth(msg.to_owned())
    }

    /// Create a new token error
    pub fn token(msg: &str) -> (e: Self)
        ensures
            is_token_error(e, msg@),
    {
        SchwabError::Token(msg.to_owned())
    }

    /// Create a new API error
    pub fn api(status: u16, msg: &str) -> (e: Self)
        ensures
            is_api_error(e, status, msg@),
    {
        SchwabError::Api { status, message: msg.to_owned() }
    }

    /// Create a new configuration error
    pub fn config(msg: &str) -> (e: Self)
        ensures
            is_config_error(e, msg@),
    {
        SchwabError::Config(msg.to_owned())
    }

    /// Create a new stream error
    pub fn stream(msg: &str) -> (e: Self)
        ensures
            is_stream_error(e, msg@),
    {
        SchwabError::Stream(msg.to_owned())
    }

    /// Create a new generic error
    pub fn generic(msg: &str) -> (e: Self)
        ensures
            is_generic_error(e, msg@),
    {
        SchwabError::Generic(msg.to_owned())
    }

    /// The human-readable text of this error.
    pub fn message(&self) -> (s: String)
        ensures
            s@ == error_text(*self),
    {
        match self {
            SchwabError::Http(m) => prefixed("HTTP request failed: ", m),
            SchwabError::Json(m) => prefixed("JSON error: ", m),
            SchwabError::WebSocket(m) => prefixed("WebSocket error: ", m),
            SchwabError::Auth(m) => prefixed("Authentication error: ", m),
            SchwabError::Token(m) => prefixed("Token error: ", m),
            SchwabError::Api { status, message } => {
                let mut s = "API error: ".to_owned();
                let code = decimal_string(*status as i128);
                s.append(code.as_str());
                s.append(" - ");
                s.append(message.as_str());
                s
            },
            SchwabError::InvalidParameter(m) => prefixed("Invalid parameter: ", m),
            SchwabError::Config(m) => prefixed("Configuration error: ", m),
            SchwabError::Io(m) => prefixed("IO error: ", m),
            SchwabError::Url(m) => prefixed("URL parsing error: ", m),
            SchwabError::MissingField(m) => prefixed("Missing required field: ", m),
            SchwabError::InvalidFormat(m) => prefixed("Invalid format: ", m),
            SchwabError::Stream(m) => prefixed("Stream error: ", m),
            SchwabError::Generic(m) => prefixed("Error: ", m),
        }
    }
}

} // verus!
