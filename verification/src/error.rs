//! The library's error type.

use vstd::prelude::*;

verus! {

/// Everything that can go wrong when talking to a chat completion service.
#[derive(Debug)]
pub enum LlmError {
    /// The configuration is unusable.
    Config(String),
    /// The HTTP client could not be created.
    Client(reqwest::Error),
    /// The request could not be sent or the reply not read.
    Transport(reqwest::Error),
    /// The service answered with a status outside 200..=299.
    Api { status: u16, message: String, body: String },
    /// The reply body is not the expected JSON.
    Decode { source: serde_json::Error, body: String },
    /// The event stream broke off.
    Stream(String),
}

/// The library's result type.
pub type Result<T> = core::result::Result<T, LlmError>;

/// `r` is a configuration error whose message is `m`.
pub open spec fn is_config_error<T>(r: core::result::Result<T, LlmError>, m: Seq<char>) -> bool {
    r matches Err(LlmError::Config(s)) && s@ == m
}

} // verus!
