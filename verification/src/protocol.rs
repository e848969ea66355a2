//! The reliable-channel wire protocol, as plain values.
//!
//! Envelopes carry a numeric discriminant over a closed set of message
//! kinds; unknown discriminants are a typed protocol error, not a lookup
//! miss.  The transport decodes JSON into these types and encodes the
//! replies; the library never sees bytes.

use vstd::prelude::*;
use crate::error::ServerError;
use crate::state::{Client, RadioInformation};

verus! {

/// The closed set of message kinds on the reliable channel.
#[derive(Clone, Copy, PartialEq, Eq, Structural, Debug)]
pub enum TcpMessageType {
    Update,
    Ping,
    Sync,
    RadioUpdate,
    ServerSettings,
    ClientDisconnect,
    VersionMismatch,
    Login,
    LoginSuccess,
    LoginFailed,
}

/// The wire discriminant of each message kind.
pub open spec fn message_type_code(t: TcpMessageType) -> int {
    match t {
        TcpMessageType::Update => 0,
        TcpMessageType::Ping => 1,
        TcpMessageType::Sync => 2,
        TcpMessageType::RadioUpdate => 3,
        TcpMessageType::ServerSettings => 4,
        TcpMessageType::ClientDisconnect => 5,
        TcpMessageType::VersionMismatch => 6,
        TcpMessageType::Login => 7,
        TcpMessageType::LoginSuccess => 8,
        TcpMessageType::LoginFailed => 9,
    }
}

/// The message kind a discriminant names; meaningful for 0 through 9.
pub open spec fn message_type_of(d: u64) -> TcpMessageType
    recommends
        d <= 9,
{
    if d == 0 {
        TcpMessageType::Update
    } else if d == 1 {
        TcpMessageType::Ping
    } else if d == 2 {
        TcpMessageType::Sync
    } else if d == 3 {
        TcpMessageType::RadioUpdate
    } else if d == 4 {
        TcpMessageType::ServerSettings
    } else if d == 5 {
        TcpMessageType::ClientDisconnect
    } else if d == 6 {
        TcpMessageType::VersionMismatch
    } else if d == 7 {
        TcpMessageType::Login
    } else {
        if d == 8 {
            TcpMessageType::LoginSuccess
        } else {
            TcpMessageType::LoginFailed
        }
    }
}

impl TcpMessageType {
    /// The discriminant this kind is sent with.
    pub fn code(&self) -> (c: i32)
        ensures
            c == message_type_code(*self),
    {
        match self {
            TcpMessageType::Update => 0,
            TcpMessageType::Ping => 1,
            TcpMessageType::Sync => 2,
            TcpMessageType::RadioUpdate => 3,
            TcpMessageType::ServerSettings => 4,
            TcpMessageType::ClientDisconnect => 5,
            TcpMessageType::VersionMismatch => 6,
            TcpMessageType::Login => 7,
            TcpMessageType::LoginSuccess => 8,
            TcpMessageType::LoginFailed => 9,
        }
    }

    /// Maps a received discriminant to its message kind; an unknown
    /// discriminant is a protocol error.
    pub fn from_discriminant(d: u64) -> (r: Result<TcpMessageType, ServerError>)
        ensures
            r is Ok <==> d <= 9,
            d <= 9 ==> r == Ok::<TcpMessageType, ServerError>(message_type_of(d)),
            r matches Err(e) ==> e is ProtocolError,
    {
        if d == 0 {
            Ok(TcpMessageType::Update)
        } else if d == 1 {
            Ok(TcpMessageType::Ping)
        } else if d == 2 {
            Ok(TcpMessageType::Sync)
        } else if d == 3 {
            Ok(TcpMessageType::RadioUpdate)
        } else if d == 4 {
            Ok(TcpMessageType::ServerSettings)
        } else if d == 5 {
            Ok(TcpMessageType::ClientDisconnect)
        } else if d == 6 {
            Ok(TcpMessageType::VersionMismatch)
        } else if d == 7 {
            Ok(TcpMessageType::Login)
        } else if d == 8 {
            Ok(TcpMessageType::LoginSuccess)
        } else if d == 9 {
            Ok(TcpMessageType::LoginFailed)
        } else {
            Err(ServerError::ProtocolError(String::from_str("Unknown message type")))
        }
    }
}

/// The client block of a login request.  The declared coalition is ignored:
/// the coalition is derived from which secret the password matches.
#[derive(Clone, Debug)]
pub struct LoginClient {
    pub name: String,
    pub coalition: i32,
    pub allow_record: bool,
}

/// A login request from a client: name, password digest and version.
#[derive(Clone, Debug)]
pub struct LoginRequest {
    pub client: LoginClient,
    pub password: String,
    pub message_type: i32,
    pub version: String,
}

/// The typed rejection for an incompatible client version.
#[derive(Clone, Debug)]
pub struct LoginVersionMismatch {
    pub version: String,
    pub message_type: i32,
}

/// The typed rejection for a password matching neither secret.
#[derive(Clone, Debug)]
pub struct LoginFailed {
    pub version: String,
    pub message_type: i32,
    pub message: String,
}

/// The client block echoed in a login success.
#[derive(Clone, Debug)]
pub struct SrsClient {
    pub id: String,
    pub coalition: i32,
    pub allow_record: bool,
    pub name: String,
}

/// The reply that completes a login: carries the assigned session id and
/// the derived coalition.
#[derive(Clone, Debug)]
pub struct LoginSuccess {
    pub version: String,
    pub message_type: i32,
    pub client: SrsClient,
}

/// Lifecycle notifications handed to observers over the event bus.
#[derive(Clone, Debug)]
pub enum ConnectionEvent {
    LoginSuccess(Client),
    ClientDisconnect(String),
    ServerSettings,
}

/// A decoded inbound envelope.  Kinds the server only sends appear here
/// because receiving one is a protocol violation the handler must
/// answer, and an envelope the decoder could not read at all arrives as
/// `Malformed`, so that the configured policy decides its fate.
#[derive(Clone, Debug)]
pub enum InboundMessage {
    Update,
    Ping,
    Sync,
    ServerSettings,
    ClientDisconnect,
    RadioUpdate(Option<RadioInformation>),
    Login(LoginRequest),
    VersionMismatch,
    LoginSuccess,
    LoginFailed,
    Malformed,
}

} // verus!
