//! The per-connection session protocol state machine.
//!
//! A connection moves through `Connected`, `Authenticating`,
//! `Authenticated`, `Closing` and finally `Closed`, and never moves
//! backwards.  The transport reads and writes envelopes; every decision —
//! what a message does to the registry, which reply is owed, and whether
//! the connection must close — is taken here, one decoded message at a
//! time.
//!
//! Login order is fixed: the version is checked first, then the password
//! digest is compared against each coalition's secret, blue first; the
//! coalition the client declared is ignored.  A registry entry exists only
//! after a login-success reply has been produced, so no radio update is
//! accepted before login success.

use vstd::prelude::*;
use crate::config::ServerOptions;
use crate::protocol::{
    message_type_code,
    InboundMessage,
    LoginFailed,
    LoginRequest,
    LoginSuccess,
    LoginVersionMismatch,
    SrsClient,
    TcpMessageType,
};
use crate::protocol::ConnectionEvent;
use crate::state::{has_endpoint, Client, ClientState};
use crate::utils::{
    get_sha256_hash,
    is_version_compatible,
    mint_session_id,
    server_version,
    sha256_hex_of,
    version_compatible,
};

verus! {

/// The coalition assigned when the password matches the red secret.
pub const COALITION_RED: i32 = 1;

/// The coalition assigned when the password matches the blue secret.
pub const COALITION_BLUE: i32 = 2;

/// Where a connection stands in its life cycle.
#[derive(Clone, Copy, PartialEq, Eq, Structural, Debug)]
pub enum ConnectionPhase {
    Connected,
    Authenticating,
    Authenticated,
    Closing,
    Closed,
}

/// The position of a phase along the life cycle; the handler only ever
/// moves forward along this order.
pub open spec fn phase_index(p: ConnectionPhase) -> int {
    match p {
        ConnectionPhase::Connected => 0,
        ConnectionPhase::Authenticating => 1,
        ConnectionPhase::Authenticated => 2,
        ConnectionPhase::Closing => 3,
        ConnectionPhase::Closed => 4,
    }
}

/// The handler-side state of one connection: its endpoint key, its phase,
/// and the session id it was assigned at login, if any.
pub struct ConnectionState {
    pub endpoint: u64,
    pub phase: ConnectionPhase,
    pub session_id: Option<String>,
}

impl ConnectionState {
    pub fn new(endpoint: u64) -> (r: Self)
        ensures
            r.endpoint == endpoint,
            r.phase is Connected,
            r.session_id is None,
    {
        ConnectionState { endpoint, phase: ConnectionPhase::Connected, session_id: None }
    }

    /// The transport calls this once it starts reading envelopes.
    pub fn start_authentication(&mut self)
        requires
            old(self).phase is Connected,
        ensures
            *final(self) == (ConnectionState {
                phase: ConnectionPhase::Authenticating,
                ..*old(self)
            }),
    {
        self.phase = ConnectionPhase::Authenticating;
    }
}

/// A reply owed to the connection's own client.
#[derive(Clone, Debug)]
pub enum OutboundMessage {
    Success(LoginSuccess),
    Failed(LoginFailed),
    Mismatch(LoginVersionMismatch),
}

/// What one protocol step asks of the transport: an optional reply to
/// send, and whether the connection must then close.
#[derive(Debug)]
pub struct StepResult {
    pub reply: Option<OutboundMessage>,
    pub close: bool,
}

/// How a login is decided, in validation order: an incompatible version is
/// rejected before the password is looked at; a password matching the blue
/// secret wins over the red one.
#[derive(Clone, Copy, PartialEq, Eq, Structural, Debug)]
pub enum LoginDecision {
    AcceptBlue,
    AcceptRed,
    RejectVersion,
    RejectPassword,
}

/// The login rule over plain values: `password` is the digest the client
/// sent; `blue_digest` and `red_digest` are the digests of the configured
/// secrets.
pub open spec fn spec_login_decision(
    version: Seq<char>,
    password: Seq<char>,
    blue_digest: Seq<char>,
    red_digest: Seq<char>,
) -> LoginDecision {
    if !version_compatible(version) {
        LoginDecision::RejectVersion
    } else if password == blue_digest {
        LoginDecision::AcceptBlue
    } else if password == red_digest {
        LoginDecision::AcceptRed
    } else {
        LoginDecision::RejectPassword
    }
}

/// Decides a login from the request fields and the two secret digests.
pub fn login_decision(
    version: &str,
    password: &String,
    blue_digest: &String,
    red_digest: &String,
) -> (d: LoginDecision)
    ensures
        d == spec_login_decision(version@, password@, blue_digest@, red_digest@),
{
    if !is_version_compatible(version) {
        LoginDecision::RejectVersion
    } else if *password == *blue_digest {
        LoginDecision::AcceptBlue
    } else if *password == *red_digest {
        LoginDecision::AcceptRed
    } else {
        LoginDecision::RejectPassword
    }
}

/// What a finished login step looks like, for every decision the request
/// can draw.  `conn0`/`reg0` are the states before the step, `conn1`/`reg1`
/// after it.
pub open spec fn login_outcome_ok(
    req: LoginRequest,
    options: ServerOptions,
    conn0: ConnectionState,
    conn1: ConnectionState,
    reg0: Seq<(u64, Client)>,
    reg1: Seq<(u64, Client)>,
    step: StepResult,
) -> bool {
    let bd = sha256_hex_of(options.awacs.blue_password@);
    let rd = sha256_hex_of(options.awacs.red_password@);
    let d = spec_login_decision(req.version@, req.password@, bd, rd);
    &&& conn1.endpoint == conn0.endpoint
    &&& (d is RejectVersion ==> reg1 == reg0 && conn1.phase is Closing && conn1.session_id
        == conn0.session_id && step.close && (step.reply matches Some(
        OutboundMessage::Mismatch(m),
    ) && m.message_type == message_type_code(TcpMessageType::VersionMismatch)
        && version_compatible(m.version@)))
    &&& (d is RejectPassword ==> reg1 == reg0 && conn1.phase is Closing && conn1.session_id
        == conn0.session_id && step.close && (step.reply matches Some(OutboundMessage::Failed(f))
        && f.message_type == message_type_code(TcpMessageType::LoginFailed) && f.message@
        == "Invalid Password"@ && version_compatible(f.version@)))
    &&& (d is AcceptBlue ==> login_accept_ok(req, conn0, conn1, reg0, reg1, step, COALITION_BLUE))
    &&& (d is AcceptRed ==> login_accept_ok(req, conn0, conn1, reg0, reg1, step, COALITION_RED))
}

/// What a successful login does: exactly one entry is appended to the
/// registry, keyed by the connection's endpoint, carrying the assigned
/// coalition and a fresh session id, and the login-success reply echoes
/// that same id — so the reply is produced with the entry, never after
/// some later message.
pub open spec fn login_accept_ok(
    req: LoginRequest,
    conn0: ConnectionState,
    conn1: ConnectionState,
    reg0: Seq<(u64, Client)>,
    reg1: Seq<(u64, Client)>,
    step: StepResult,
    coalition: i32,
) -> bool {
    &&& step.close == false
    &&& conn1.phase is Authenticated
    &&& reg1.len() == reg0.len() + 1
    &&& reg1 == reg0.push(reg1.last())
    &&& reg1.last().0 == conn0.endpoint
    &&& ({
        let c = reg1.last().1;
        &&& c.addr == Some(conn0.endpoint)
        &&& c.voice_addr is None
        &&& c.radio_information is None
        &&& c.coalition == coalition
        &&& c.name@ == req.client.name@
        &&& c.allow_record == req.client.allow_record
        &&& c.id == conn1.session_id
        &&& (c.id matches Some(s) && s@.len() == 36)
    })
    &&& (step.reply matches Some(OutboundMessage::Success(ls)) && ls.message_type
        == message_type_code(TcpMessageType::LoginSuccess) && version_compatible(ls.version@)
        && ls.client.coalition == coalition && ls.client.name@ == req.client.name@
        && ls.client.allow_record == req.client.allow_record && (conn1.session_id matches Some(s)
        && ls.client.id@ == s@))
}

/// Handles one login request: version first, then the password against
/// each secret, blue first; on success the session is registered before
/// the step returns, together with the login-success reply.
pub fn handle_login(
    conn: &mut ConnectionState,
    registry: &mut ClientState,
    options: &ServerOptions,
    req: &LoginRequest,
) -> (step: StepResult)
    requires
        old(registry).wf(),
        old(conn).phase is Connected || old(conn).phase is Authenticating,
        !has_endpoint(old(registry)@, old(conn).endpoint),
    ensures
        final(registry).wf(),
        phase_index(final(conn).phase) >= phase_index(old(conn).phase),
        login_outcome_ok(
            *req,
            *options,
            *old(conn),
            *final(conn),
            old(registry)@,
            final(registry)@,
            step,
        ),
{
    let blue_digest = get_sha256_hash(options.awacs.blue_password.as_str());
    let red_digest = get_sha256_hash(options.awacs.red_password.as_str());
    let d = login_decision(req.version.as_str(), &req.password, &blue_digest, &red_digest);
    match d {
        LoginDecision::RejectVersion => {
            conn.phase = ConnectionPhase::Closing;
            StepResult {
                reply: Some(
                    OutboundMessage::Mismatch(
                        LoginVersionMismatch {
                            version: server_version(),
                            message_type: TcpMessageType::VersionMismatch.code(),
                        },
                    ),
                ),
                close: true,
            }
        },
        LoginDecision::RejectPassword => {
            conn.phase = ConnectionPhase::Closing;
            StepResult {
                reply: Some(
                    OutboundMessage::Failed(
                        LoginFailed {
                            version: server_version(),
                            message_type: TcpMessageType::LoginFailed.code(),
                            message: String::from_str("Invalid Password"),
                        },
                    ),
                ),
                close: true,
            }
        },
        LoginDecision::AcceptBlue | LoginDecision::AcceptRed => {
            let coalition: i32 = if matches!(d, LoginDecision::AcceptBlue) {
                COALITION_BLUE
            } else {
                COALITION_RED
            };
            let session_id = mint_session_id();
            let entry = Client {
                id: Some(session_id.clone()),
                addr: Some(conn.endpoint),
                voice_addr: None,
                name: req.client.name.clone(),
                coalition,
                allow_record: req.client.allow_record,
                radio_information: None,
            };
            let reply_client = SrsClient {
                id: session_id.clone(),
                coalition,
                allow_record: req.client.allow_record,
                name: req.client.name.clone(),
            };
            match registry.add_client(conn.endpoint, entry) {
                Ok(()) => {},
                Err(_) => {
                    return unreached();
                },
            }
            conn.phase = ConnectionPhase::Authenticated;
            conn.session_id = Some(session_id);
            StepResult {
                reply: Some(
                    OutboundMessage::Success(
                        LoginSuccess {
                            version: server_version(),
                            message_type: TcpMessageType::LoginSuccess.code(),
                            client: reply_client,
                        },
                    ),
                ),
                close: false,
            }
        },
    }
}

/// Handles one decoded envelope.  Update, ping, sync and server-settings
/// traffic passes through; an explicit disconnect, a client-only message
/// kind, or a malformed radio update closes the connection; a radio update
/// replaces the caller's radio state wholesale, and only once the session
/// is authenticated — before login success it is rejected and the
/// connection continues.  An envelope the decoder could not read closes
/// the connection under the default policy, and is ignored where the
/// configuration tolerates malformed traffic.
pub fn handle_message(
    conn: &mut ConnectionState,
    registry: &mut ClientState,
    options: &ServerOptions,
    msg: InboundMessage,
) -> (step: StepResult)
    requires
        old(registry).wf(),
        old(conn).phase is Connected || old(conn).phase is Authenticating || old(conn).phase is Authenticated,
        !(old(conn).phase is Authenticated) ==> !has_endpoint(
            old(registry)@,
            old(conn).endpoint,
        ),
    ensures
        final(registry).wf(),
        final(conn).endpoint == old(conn).endpoint,
        phase_index(final(conn).phase) >= phase_index(old(conn).phase),
        (msg is Update || msg is Ping || msg is Sync || msg is ServerSettings) ==> final(registry)@ == old(registry)@ && *final(conn) == *old(conn) && step.reply is None && !step.close,
        msg is ClientDisconnect ==> final(registry)@ == old(registry)@ && final(conn).phase is Closing && final(conn).session_id == old(conn).session_id
            && step.reply is None && step.close,
        (msg is VersionMismatch || msg is LoginSuccess || msg is LoginFailed) ==> final(registry)@ == old(registry)@ && final(conn).phase is Closing && step.reply is None && step.close,
        msg matches InboundMessage::RadioUpdate(None) ==> final(registry)@ == old(registry)@
            && final(conn).phase is Closing && step.reply is None && step.close,
        msg is Malformed ==> final(registry)@ == old(registry)@ && step.reply is None && (
        options.general.terminate_on_malformed ==> final(conn).phase is Closing && step.close) && (
        !options.general.terminate_on_malformed ==> *final(conn) == *old(conn) && !step.close),
        msg matches InboundMessage::RadioUpdate(Some(info)) ==> (!(old(conn).phase is Authenticated) ==> final(registry)@ == old(registry)@ && *final(conn) == *old(conn) && step.reply is None && !step.close) && (old(conn).phase is Authenticated ==> *final(conn) == *old(conn) && step.reply is None && !step.close && (has_endpoint(
            old(registry)@,
            old(conn).endpoint,
        ) ==> exists|i: int|
            0 <= i < old(registry)@.len() && #[trigger] old(registry)@[i].0 == old(conn).endpoint
                && final(registry)@ == old(registry)@.update(
                i,
                (
                    old(conn).endpoint,
                    (Client { radio_information: Some(info), ..old(registry)@[i].1 }),
                ),
            )) && (!has_endpoint(old(registry)@, old(conn).endpoint) ==> final(registry)@ == old(registry)@)),
        msg matches InboundMessage::Login(req) ==> (old(conn).phase is Authenticated ==> final(registry)@ == old(registry)@ && final(conn).phase is Closing && step.reply is None && step.close)
            && (!(old(conn).phase is Authenticated) ==> login_outcome_ok(
            req,
            *options,
            *old(conn),
            *final(conn),
            old(registry)@,
            final(registry)@,
            step,
        )),
{
    match msg {
        InboundMessage::Update => StepResult { reply: None, close: false },
        InboundMessage::Ping => StepResult { reply: None, close: false },
        InboundMessage::Sync => StepResult { reply: None, close: false },
        InboundMessage::ServerSettings => StepResult { reply: None, close: false },
        InboundMessage::ClientDisconnect => {
            conn.phase = ConnectionPhase::Closing;
            StepResult { reply: None, close: true }
        },
        InboundMessage::VersionMismatch => {
            conn.phase = ConnectionPhase::Closing;
            StepResult { reply: None, close: true }
        },
        InboundMessage::LoginSuccess => {
            conn.phase = ConnectionPhase::Closing;
            StepResult { reply: None, close: true }
        },
        InboundMessage::LoginFailed => {
            conn.phase = ConnectionPhase::Closing;
            StepResult { reply: None, close: true }
        },
        InboundMessage::RadioUpdate(None) => {
            conn.phase = ConnectionPhase::Closing;
            StepResult { reply: None, close: true }
        },
        InboundMessage::Malformed => {
            if options.general.terminate_on_malformed {
                conn.phase = ConnectionPhase::Closing;
                StepResult { reply: None, close: true }
            } else {
                StepResult { reply: None, close: false }
            }
        },
        InboundMessage::RadioUpdate(Some(info)) => {
            if conn.phase == ConnectionPhase::Authenticated {
                let _ = registry.update_radio_information(conn.endpoint, info);
            }
            StepResult { reply: None, close: false }
        },
        InboundMessage::Login(req) => {
            if conn.phase == ConnectionPhase::Authenticated {
                conn.phase = ConnectionPhase::Closing;
                StepResult { reply: None, close: true }
            } else {
                handle_login(conn, registry, options, &req)
            }
        },
    }
}

/// How an accept on the session listener failed, as plain values; the
/// transport maps its error kinds onto these.
#[derive(Clone, Copy, PartialEq, Eq, Structural, Debug)]
pub enum AcceptFailure {
    Transient,
    Other,
}

/// Whether an accept failure ends the accept loop: only the unclassified
/// kind is fatal; transient failures are logged and accepting continues,
/// so one refused connection never stops the others.
pub fn accept_failure_is_fatal(failure: AcceptFailure) -> (fatal: bool)
    ensures
        fatal == (failure is Other),
{
    match failure {
        AcceptFailure::Transient => false,
        AcceptFailure::Other => true,
    }
}

/// Law: a login whose password digest matches the blue secret's digest is
/// always assigned the blue coalition — the entry created and the
/// login-success reply both carry it.  (That the login-success reply is
/// produced together with the entry, before any radio update can be
/// accepted, is part of `login_accept_ok`.)
pub proof fn lemma_blue_password_fixed_coalition(
    req: LoginRequest,
    options: ServerOptions,
    conn0: ConnectionState,
    conn1: ConnectionState,
    reg0: Seq<(u64, Client)>,
    reg1: Seq<(u64, Client)>,
    step: StepResult,
)
    requires
        version_compatible(req.version@),
        req.password@ == sha256_hex_of(options.awacs.blue_password@),
        login_outcome_ok(req, options, conn0, conn1, reg0, reg1, step),
    ensures
        reg1.last().1.coalition == COALITION_BLUE,
        step.reply matches Some(OutboundMessage::Success(ls)) && ls.client.coalition
            == COALITION_BLUE,
{
}

/// Law: a login matching neither secret's digest draws the login-failure
/// reply and leaves the registry without a new entry.
pub proof fn lemma_unmatched_password_rejected(
    req: LoginRequest,
    options: ServerOptions,
    conn0: ConnectionState,
    conn1: ConnectionState,
    reg0: Seq<(u64, Client)>,
    reg1: Seq<(u64, Client)>,
    step: StepResult,
)
    requires
        version_compatible(req.version@),
        req.password@ != sha256_hex_of(options.awacs.blue_password@),
        req.password@ != sha256_hex_of(options.awacs.red_password@),
        login_outcome_ok(req, options, conn0, conn1, reg0, reg1, step),
    ensures
        reg1 == reg0,
        step.reply matches Some(OutboundMessage::Failed(f)),
        step.close,
{
}

/// Law: a login with an incompatible version draws the version-mismatch
/// reply and leaves the registry without a new entry, whatever the
/// password.
pub proof fn lemma_version_mismatch_rejected(
    req: LoginRequest,
    options: ServerOptions,
    conn0: ConnectionState,
    conn1: ConnectionState,
    reg0: Seq<(u64, Client)>,
    reg1: Seq<(u64, Client)>,
    step: StepResult,
)
    requires
        !version_compatible(req.version@),
        login_outcome_ok(req, options, conn0, conn1, reg0, reg1, step),
    ensures
        reg1 == reg0,
        step.reply matches Some(OutboundMessage::Mismatch(m)),
        step.close,
{
}

/// The one cleanup path every exit takes: the session's registry entry is
/// removed, the connection is marked closed, and the disconnect event for
/// an authenticated session is produced exactly once — calling this again
/// on a closed connection changes nothing and yields no event.
pub fn handle_disconnect(conn: &mut ConnectionState, registry: &mut ClientState) -> (ev: Option<
    ConnectionEvent,
>)
    requires
        old(registry).wf(),
    ensures
        final(registry).wf(),
        final(conn).endpoint == old(conn).endpoint,
        final(conn).session_id == old(conn).session_id,
        old(conn).phase is Closed ==> final(registry)@ == old(registry)@ && *final(conn) == *old(conn) && ev is None,
        !(old(conn).phase is Closed) ==> final(conn).phase is Closed && (has_endpoint(
            old(registry)@,
            old(conn).endpoint,
        ) ==> exists|i: int|
            0 <= i < old(registry)@.len() && #[trigger] old(registry)@[i].0 == old(conn).endpoint
                && final(registry)@ == old(registry)@.remove(i)) && (!has_endpoint(
            old(registry)@,
            old(conn).endpoint,
        ) ==> final(registry)@ == old(registry)@) && (match old(conn).session_id {
            Some(id) => ev matches Some(ConnectionEvent::ClientDisconnect(e)) && e@ == id@,
            None => ev is None,
        }),
{
    if conn.phase == ConnectionPhase::Closed {
        return None;
    }
    let _ = registry.remove_client(conn.endpoint);
    conn.phase = ConnectionPhase::Closed;
    match &conn.session_id {
        Some(id) => Some(ConnectionEvent::ClientDisconnect(id.clone())),
        None => None,
    }
}

} // verus!
