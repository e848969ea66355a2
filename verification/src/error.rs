//! Error taxonomy of the server core.
//!
//! Network errors, protocol errors, state errors, handler-initialization
//! errors and event errors are kept apart so that callers can decide whether
//! a failure ends one session, one handler, or the whole server.  Payloads
//! are plain strings describing the failure.

use vstd::prelude::*;

verus! {

/// Errors raised while serving one client connection or the whole server.
#[derive(Clone, Debug)]
pub enum ServerError {
    NetworkError(String),
    StateError(String),
    InternalError(String),
    ProtocolError(String),
    JsonError(String),
    ConfigError(String),
    MessageTypeError(String),
    ClientError(String),
}

/// Errors raised by the voice server component.
#[derive(Clone, Debug)]
pub enum VoiceServerError {
    NetworkError(String),
    InitError(String),
    EventError(String),
    StateError(String),
    HandlerError(String),
}

/// Errors raised by the control component.
#[derive(Clone, Debug)]
pub enum ControlError {
    NetworkError(String),
    InitError(String),
    EventError(String),
    StateError(String),
    HandlerError(String),
}

/// The two ways a login attempt is rejected.
#[derive(Clone, Copy, PartialEq, Eq, Structural, Debug)]
pub enum LoginError {
    VersionMismatch,
    InvalidPassword,
}

/// Errors raised while loading or validating the configuration.
#[derive(Clone, Debug)]
pub enum ConfigError {
    IoError(String),
    ValidationError(String),
}

impl ServerError {
    /// The protocol-level form of a login rejection.
    pub fn from(err: LoginError) -> (r: ServerError)
        ensures
            r matches ServerError::ProtocolError(m) && (match err {
                LoginError::VersionMismatch => m@ == "Version mismatch"@,
                LoginError::InvalidPassword => m@ == "Invalid password"@,
            }),
    {
        match err {
            LoginError::VersionMismatch => {
                ServerError::ProtocolError(String::from_str("Version mismatch"))
            },
            LoginError::InvalidPassword => {
                ServerError::ProtocolError(String::from_str("Invalid password"))
            },
        }
    }
}

} // verus!
