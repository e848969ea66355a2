use vngd_srs_server::config::ServerOptions;
use vngd_srs_server::error::{LoginError, ServerError};
use vngd_srs_server::protocol::{
    ConnectionEvent, InboundMessage, LoginClient, LoginRequest, TcpMessageType,
};
use vngd_srs_server::session::{
    accept_failure_is_fatal, handle_disconnect, handle_login, handle_message, AcceptFailure,
    ConnectionPhase, ConnectionState, OutboundMessage, COALITION_BLUE, COALITION_RED,
};
use vngd_srs_server::state::{ClientState, Iff, Radio, RadioInformation};
use vngd_srs_server::utils::{get_sha256_hash, is_version_compatible};

fn login_request(password: String, version: &str) -> LoginRequest {
    LoginRequest {
        client: LoginClient {
            name: "Viper 1-1".to_string(),
            coalition: 0,
            allow_record: true,
        },
        password,
        message_type: 7,
        version: version.to_string(),
    }
}

fn authenticating(endpoint: u64) -> ConnectionState {
    let mut conn = ConnectionState::new(endpoint);
    conn.start_authentication();
    conn
}

fn some_radio_info() -> RadioInformation {
    RadioInformation {
        radios: vec![Radio {
            enc: false,
            enc_key: 0,
            freq: 251_000_000,
            standby_freq: 0,
            modulation: 0,
            radio_type: 0,
            sec_freq: 0,
            retransmit: false,
            standby_channel: 0,
        }],
        unit: "F-16".to_string(),
        unit_id: 7,
        iff: Iff { control: 0, mode1: 0, mode3: 0, mode4: false, mic: 0, status: 0 },
    }
}

#[test]
fn sha256_digest_is_64_hex_chars_and_not_the_input() {
    let d = get_sha256_hash("blue");
    assert_eq!(d.len(), 64);
    assert_ne!(d, "blue");
    assert!(d.chars().all(|c| c.is_ascii_hexdigit() && !c.is_ascii_uppercase()));
    assert_eq!(d, get_sha256_hash("blue"));
    assert_ne!(d, get_sha256_hash("red"));
}

#[test]
fn version_compatibility_is_exact() {
    assert!(is_version_compatible("2.0.8.4"));
    assert!(!is_version_compatible("2.0.8.3"));
    assert!(!is_version_compatible(""));
}

#[test]
fn blue_password_gets_blue_coalition() {
    let opts = ServerOptions::default();
    let mut conn = authenticating(42);
    let mut reg = ClientState::new();
    let req = login_request(get_sha256_hash("blue"), "2.0.8.4");
    let step = handle_login(&mut conn, &mut reg, &opts, &req);
    assert!(!step.close);
    assert_eq!(conn.phase, ConnectionPhase::Authenticated);
    match step.reply {
        Some(OutboundMessage::Success(ls)) => {
            assert_eq!(ls.client.coalition, COALITION_BLUE);
            assert_eq!(ls.message_type, 8);
            assert_eq!(ls.version, "2.0.8.4");
            assert_eq!(ls.client.name, "Viper 1-1");
            assert!(ls.client.allow_record);
            assert_eq!(ls.client.id.len(), 36);
            assert_eq!(conn.session_id.as_deref(), Some(ls.client.id.as_str()));
        }
        other => panic!("expected login success, got {:?}", other),
    }
    assert_eq!(reg.len(), 1);
    let entry = reg.get_client(42).unwrap();
    assert_eq!(entry.coalition, COALITION_BLUE);
    assert!(entry.radio_information.is_none());
}

#[test]
fn red_password_gets_red_coalition() {
    let opts = ServerOptions::default();
    let mut conn = authenticating(43);
    let mut reg = ClientState::new();
    let req = login_request(get_sha256_hash("red"), "2.0.8.4");
    let step = handle_login(&mut conn, &mut reg, &opts, &req);
    match step.reply {
        Some(OutboundMessage::Success(ls)) => assert_eq!(ls.client.coalition, COALITION_RED),
        other => panic!("expected login success, got {:?}", other),
    }
    assert_eq!(reg.len(), 1);
}

#[test]
fn wrong_password_is_rejected_without_registry_entry() {
    let opts = ServerOptions::default();
    let mut conn = authenticating(44);
    let mut reg = ClientState::new();
    let req = login_request(get_sha256_hash("neither"), "2.0.8.4");
    let step = handle_login(&mut conn, &mut reg, &opts, &req);
    assert!(step.close);
    assert_eq!(conn.phase, ConnectionPhase::Closing);
    match step.reply {
        Some(OutboundMessage::Failed(f)) => {
            assert_eq!(f.message, "Invalid Password");
            assert_eq!(f.message_type, 9);
            assert_eq!(f.version, "2.0.8.4");
        }
        other => panic!("expected login failure, got {:?}", other),
    }
    assert_eq!(reg.len(), 0);
}

#[test]
fn raw_secret_without_hashing_is_rejected() {
    let opts = ServerOptions::default();
    let mut conn = authenticating(45);
    let mut reg = ClientState::new();
    let req = login_request("blue".to_string(), "2.0.8.4");
    let step = handle_login(&mut conn, &mut reg, &opts, &req);
    assert!(matches!(step.reply, Some(OutboundMessage::Failed(_))));
    assert_eq!(reg.len(), 0);
}

#[test]
fn version_mismatch_is_rejected_regardless_of_password() {
    let opts = ServerOptions::default();
    let mut conn = authenticating(46);
    let mut reg = ClientState::new();
    let req = login_request(get_sha256_hash("blue"), "1.9.0.0");
    let step = handle_login(&mut conn, &mut reg, &opts, &req);
    assert!(step.close);
    match step.reply {
        Some(OutboundMessage::Mismatch(m)) => {
            assert_eq!(m.message_type, 6);
            assert_eq!(m.version, "2.0.8.4");
        }
        other => panic!("expected version mismatch, got {:?}", other),
    }
    assert_eq!(reg.len(), 0);
}

#[test]
fn radio_update_before_login_is_rejected_and_connection_continues() {
    let opts = ServerOptions::default();
    let mut conn = authenticating(47);
    let mut reg = ClientState::new();
    let step = handle_message(
        &mut conn,
        &mut reg,
        &opts,
        InboundMessage::RadioUpdate(Some(some_radio_info())),
    );
    assert!(!step.close);
    assert!(step.reply.is_none());
    assert_eq!(reg.len(), 0);
    assert_eq!(conn.phase, ConnectionPhase::Authenticating);
}

#[test]
fn radio_update_after_login_updates_the_entry() {
    let opts = ServerOptions::default();
    let mut conn = authenticating(48);
    let mut reg = ClientState::new();
    let req = login_request(get_sha256_hash("blue"), "2.0.8.4");
    let _ = handle_login(&mut conn, &mut reg, &opts, &req);
    let step = handle_message(
        &mut conn,
        &mut reg,
        &opts,
        InboundMessage::RadioUpdate(Some(some_radio_info())),
    );
    assert!(!step.close);
    let entry = reg.get_client(48).unwrap();
    assert_eq!(entry.radio_information.as_ref().unwrap().radios[0].freq, 251_000_000);
}

#[test]
fn radio_update_without_information_closes_the_connection() {
    let opts = ServerOptions::default();
    let mut conn = authenticating(49);
    let mut reg = ClientState::new();
    let step = handle_message(&mut conn, &mut reg, &opts, InboundMessage::RadioUpdate(None));
    assert!(step.close);
    assert_eq!(conn.phase, ConnectionPhase::Closing);
}

#[test]
fn client_only_message_kinds_are_protocol_violations() {
    let opts = ServerOptions::default();
    for msg in [
        InboundMessage::VersionMismatch,
        InboundMessage::LoginSuccess,
        InboundMessage::LoginFailed,
    ] {
        let mut conn = authenticating(50);
        let mut reg = ClientState::new();
        let step = handle_message(&mut conn, &mut reg, &opts, msg);
        assert!(step.close);
        assert_eq!(conn.phase, ConnectionPhase::Closing);
        assert_eq!(reg.len(), 0);
    }
}

#[test]
fn passthrough_kinds_change_nothing() {
    let opts = ServerOptions::default();
    for msg in [
        InboundMessage::Update,
        InboundMessage::Ping,
        InboundMessage::Sync,
        InboundMessage::ServerSettings,
    ] {
        let mut conn = authenticating(51);
        let mut reg = ClientState::new();
        let step = handle_message(&mut conn, &mut reg, &opts, msg);
        assert!(!step.close);
        assert!(step.reply.is_none());
        assert_eq!(conn.phase, ConnectionPhase::Authenticating);
    }
}

#[test]
fn malformed_envelope_closes_under_the_default_policy() {
    let opts = ServerOptions::default();
    let mut conn = authenticating(54);
    let mut reg = ClientState::new();
    let step = handle_message(&mut conn, &mut reg, &opts, InboundMessage::Malformed);
    assert!(step.close);
    assert!(step.reply.is_none());
    assert_eq!(conn.phase, ConnectionPhase::Closing);
}

#[test]
fn malformed_envelope_is_ignored_when_tolerated() {
    let mut opts = ServerOptions::default();
    opts.general.terminate_on_malformed = false;
    let mut conn = authenticating(55);
    let mut reg = ClientState::new();
    let step = handle_message(&mut conn, &mut reg, &opts, InboundMessage::Malformed);
    assert!(!step.close);
    assert!(step.reply.is_none());
    assert_eq!(conn.phase, ConnectionPhase::Authenticating);
}

#[test]
fn only_unclassified_accept_failures_are_fatal() {
    assert!(!accept_failure_is_fatal(AcceptFailure::Transient));
    assert!(accept_failure_is_fatal(AcceptFailure::Other));
}

#[test]
fn disconnect_cleanup_runs_exactly_once() {
    let opts = ServerOptions::default();
    let mut conn = authenticating(52);
    let mut reg = ClientState::new();
    let req = login_request(get_sha256_hash("blue"), "2.0.8.4");
    let _ = handle_login(&mut conn, &mut reg, &opts, &req);
    assert_eq!(reg.len(), 1);
    let sid = conn.session_id.clone().unwrap();

    let ev = handle_disconnect(&mut conn, &mut reg);
    match ev {
        Some(ConnectionEvent::ClientDisconnect(id)) => assert_eq!(id, sid),
        other => panic!("expected a disconnect event, got {:?}", other),
    }
    assert_eq!(reg.len(), 0);
    assert_eq!(conn.phase, ConnectionPhase::Closed);

    let again = handle_disconnect(&mut conn, &mut reg);
    assert!(again.is_none());
    assert_eq!(reg.len(), 0);
}

#[test]
fn disconnect_without_login_yields_no_event() {
    let mut conn = authenticating(53);
    let mut reg = ClientState::new();
    let ev = handle_disconnect(&mut conn, &mut reg);
    assert!(ev.is_none());
    assert_eq!(conn.phase, ConnectionPhase::Closed);
}

#[test]
fn message_discriminants_round_trip() {
    let kinds = [
        TcpMessageType::Update,
        TcpMessageType::Ping,
        TcpMessageType::Sync,
        TcpMessageType::RadioUpdate,
        TcpMessageType::ServerSettings,
        TcpMessageType::ClientDisconnect,
        TcpMessageType::VersionMismatch,
        TcpMessageType::Login,
        TcpMessageType::LoginSuccess,
        TcpMessageType::LoginFailed,
    ];
    for (d, kind) in kinds.iter().enumerate() {
        assert_eq!(kind.code(), d as i32);
        assert_eq!(TcpMessageType::from_discriminant(d as u64).unwrap(), *kind);
    }
    assert!(matches!(
        TcpMessageType::from_discriminant(10),
        Err(ServerError::ProtocolError(_))
    ));
}

#[test]
fn login_errors_map_to_protocol_errors() {
    match ServerError::from(LoginError::VersionMismatch) {
        ServerError::ProtocolError(m) => assert_eq!(m, "Version mismatch"),
        other => panic!("unexpected mapping: {:?}", other),
    }
    match ServerError::from(LoginError::InvalidPassword) {
        ServerError::ProtocolError(m) => assert_eq!(m, "Invalid password"),
        other => panic!("unexpected mapping: {:?}", other),
    }
}
