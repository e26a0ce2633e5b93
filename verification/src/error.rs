//! Typed errors of library operations. Front ends can match on these to give
//! context-specific handling (retry on network errors, re-login on auth errors).
use vstd::prelude::*;
use crate::text::{concat, push_decimal, push_str};
use crate::text::decimal;

verus! {

/// Main error type for library operations.
#[derive(Debug)]
pub enum QobuzError {
    /// Not authenticated: the user needs to log in.
    NotAuthenticated,
    /// Login failed (wrong credentials or API error).
    LoginFailed(String),
    /// HTTP request failed (network issue, timeout).
    Network(String),
    /// API returned a non-success HTTP status.
    HttpStatus(u16, String),
    /// API returned an error message in the JSON body.
    ApiError(String),
    /// Failed to parse an API response.
    ParseError(String),
    /// No audio format available for this track.
    NoFormatAvailable,
    /// Audio download failed after retries.
    DownloadFailed(String),
    /// Invalid request signature (wrong app_secret).
    InvalidSignature,
    /// Credential extraction from the Qobuz web player failed.
    CredentialExtraction(String),
    /// Audio decoder error.
    DecoderError(String),
    /// Config I/O error.
    ConfigError(String),
}

/// The message shown for an error.
pub open spec fn spec_error_message(e: QobuzError) -> Seq<char> {
    match e {
        QobuzError::NotAuthenticated => "Not authenticated"@,
        QobuzError::LoginFailed(m) => "Login failed: "@ + m@,
        QobuzError::Network(m) => "Network error: "@ + m@,
        QobuzError::HttpStatus(code, m) => "HTTP "@ + decimal(code as nat) + ": "@ + m@,
        QobuzError::ApiError(m) => "API error: "@ + m@,
        QobuzError::ParseError(m) => "Parse error: "@ + m@,
        QobuzError::NoFormatAvailable => "No audio format available"@,
        QobuzError::DownloadFailed(m) => "Download failed: "@ + m@,
        QobuzError::InvalidSignature => "Invalid request signature \u{2014} check app_secret"@,
        QobuzError::CredentialExtraction(m) => "Credential extraction failed: "@ + m@,
        QobuzError::DecoderError(m) => "Decoder error: "@ + m@,
        QobuzError::ConfigError(m) => "Config error: "@ + m@,
    }
}

impl QobuzError {
    /// The message shown for this error.
    pub fn message(&self) -> (s: String)
        ensures
            s@ == spec_error_message(*self),
    {
        match self {
            QobuzError::NotAuthenticated => "Not authenticated".to_owned(),
            QobuzError::LoginFailed(m) => concat("Login failed: ", m.as_str()),
            QobuzError::Network(m) => concat("Network error: ", m.as_str()),
            QobuzError::HttpStatus(code, m) => {
                let mut s = "HTTP ".to_owned();
                push_decimal(&mut s, *code as u64);
                push_str(&mut s, ": ");
                push_str(&mut s, m.as_str());
                s
            },
            QobuzError::ApiError(m) => concat("API error: ", m.as_str()),
            QobuzError::ParseError(m) => concat("Parse error: ", m.as_str()),
            QobuzError::NoFormatAvailable => "No audio format available".to_owned(),
            QobuzError::DownloadFailed(m) => concat("Download failed: ", m.as_str()),
            QobuzError::InvalidSignature => "Invalid request signature \u{2014} check app_secret".to_owned(),
            QobuzError::CredentialExtraction(m) => concat("Credential extraction failed: ", m.as_str()),
            QobuzError::DecoderError(m) => concat("Decoder error: ", m.as_str()),
            QobuzError::ConfigError(m) => concat("Config error: ", m.as_str()),
        }
    }
}

} // verus!
