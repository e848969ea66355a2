use vngd_srs_server::config::ServerOptions;
use vngd_srs_server::error::ServerError;
use vngd_srs_server::routing::{
    process_frame, receive_failure_is_fatal, ReceiveFailure, Transmission, VoiceFrame,
    FREQ_TOLERANCE_HZ,
};
use vngd_srs_server::state::{Client, ClientState, Iff, Radio, RadioInformation};

const UHF: u64 = 251_000_000;
const AM: i32 = 0;
const LOBBY: u64 = 248_220_000;

fn radio(freq: u64, modulation: i32) -> Radio {
    Radio {
        enc: false,
        enc_key: 0,
        freq,
        standby_freq: 0,
        modulation,
        radio_type: 0,
        sec_freq: 0,
        retransmit: false,
        standby_channel: 0,
    }
}

fn client(id: &str, coalition: i32, addr: u64, voice: Option<u64>, radios: Vec<Radio>) -> Client {
    Client {
        id: Some(id.to_string()),
        addr: Some(addr),
        voice_addr: voice,
        name: id.to_string(),
        coalition,
        allow_record: false,
        radio_information: Some(RadioInformation {
            radios,
            unit: "unit".to_string(),
            unit_id: 1,
            iff: Iff { control: 0, mode1: 0, mode3: 0, mode4: false, mic: 0, status: 0 },
        }),
    }
}

fn frame(sender_id: &str, source: u64, freq: u64) -> VoiceFrame {
    VoiceFrame {
        sender_id: sender_id.to_string(),
        origins: vec![],
        source,
        transmission: Transmission { freq, modulation: AM, enc: false, enc_key: 0 },
    }
}

#[test]
fn tuned_same_coalition_receives_and_detuned_does_not() {
    let opts = ServerOptions::default();
    let mut reg = ClientState::new();
    reg.add_client(1, client("alpha", 2, 1, None, vec![radio(UHF, AM)])).unwrap();
    reg.add_client(2, client("bravo", 2, 2, Some(9002), vec![radio(UHF, AM)])).unwrap();
    reg.add_client(3, client("charlie", 2, 3, Some(9003), vec![radio(133_000_000, AM)]))
        .unwrap();

    let d = process_frame(&mut reg, &opts.general, &frame("alpha", 9001, UHF), &vec![]).unwrap();
    assert_eq!(d.destinations, vec![9002]);
    assert!(d.relays.is_empty());
}

#[test]
fn sender_learns_voice_endpoint_from_first_frame() {
    let opts = ServerOptions::default();
    let mut reg = ClientState::new();
    reg.add_client(1, client("alpha", 2, 1, None, vec![radio(UHF, AM)])).unwrap();
    let _ = process_frame(&mut reg, &opts.general, &frame("alpha", 9001, UHF), &vec![]).unwrap();
    assert_eq!(reg.get_client(1).unwrap().voice_addr, Some(9001));
    // a later frame from another source does not displace the first
    let _ = process_frame(&mut reg, &opts.general, &frame("alpha", 7777, UHF), &vec![]).unwrap();
    assert_eq!(reg.get_client(1).unwrap().voice_addr, Some(9001));
}

#[test]
fn unknown_sender_id_is_dropped_as_unauthenticated() {
    let opts = ServerOptions::default();
    let mut reg = ClientState::new();
    reg.add_client(1, client("alpha", 2, 1, None, vec![radio(UHF, AM)])).unwrap();
    let r = process_frame(&mut reg, &opts.general, &frame("ghost", 9001, UHF), &vec![]);
    assert!(matches!(r, Err(ServerError::ClientError(_))));
}

#[test]
fn destination_without_voice_endpoint_is_skipped() {
    let opts = ServerOptions::default();
    let mut reg = ClientState::new();
    reg.add_client(1, client("alpha", 2, 1, None, vec![radio(UHF, AM)])).unwrap();
    reg.add_client(2, client("bravo", 2, 2, None, vec![radio(UHF, AM)])).unwrap();
    let d = process_frame(&mut reg, &opts.general, &frame("alpha", 9001, UHF), &vec![]).unwrap();
    assert!(d.destinations.is_empty());
}

#[test]
fn frequency_tolerance_is_respected() {
    let opts = ServerOptions::default();
    let mut reg = ClientState::new();
    reg.add_client(1, client("alpha", 2, 1, None, vec![radio(UHF, AM)])).unwrap();
    reg.add_client(
        2,
        client("near", 2, 2, Some(9002), vec![radio(UHF + FREQ_TOLERANCE_HZ, AM)]),
    )
    .unwrap();
    reg.add_client(
        3,
        client("far", 2, 3, Some(9003), vec![radio(UHF + FREQ_TOLERANCE_HZ + 1, AM)]),
    )
    .unwrap();
    let d = process_frame(&mut reg, &opts.general, &frame("alpha", 9001, UHF), &vec![]).unwrap();
    assert_eq!(d.destinations, vec![9002]);
}

#[test]
fn standby_frequency_also_matches() {
    let opts = ServerOptions::default();
    let mut reg = ClientState::new();
    let mut standby = radio(133_000_000, AM);
    standby.standby_freq = UHF;
    reg.add_client(1, client("alpha", 2, 1, None, vec![radio(UHF, AM)])).unwrap();
    reg.add_client(2, client("bravo", 2, 2, Some(9002), vec![standby])).unwrap();
    let d = process_frame(&mut reg, &opts.general, &frame("alpha", 9001, UHF), &vec![]).unwrap();
    assert_eq!(d.destinations, vec![9002]);
}

#[test]
fn modulation_must_match() {
    let opts = ServerOptions::default();
    let mut reg = ClientState::new();
    reg.add_client(1, client("alpha", 2, 1, None, vec![radio(UHF, AM)])).unwrap();
    reg.add_client(2, client("bravo", 2, 2, Some(9002), vec![radio(UHF, 1)])).unwrap();
    let d = process_frame(&mut reg, &opts.general, &frame("alpha", 9001, UHF), &vec![]).unwrap();
    assert!(d.destinations.is_empty());
}

#[test]
fn coalition_security_blocks_opposite_sides_off_exempt_frequencies() {
    let mut opts = ServerOptions::default();
    opts.general.coalition_audio_security = true;
    let mut reg = ClientState::new();
    reg.add_client(1, client("blueone", 2, 1, None, vec![radio(UHF, AM)])).unwrap();
    reg.add_client(2, client("redone", 1, 2, Some(9002), vec![radio(UHF, AM)])).unwrap();
    let d = process_frame(&mut reg, &opts.general, &frame("blueone", 9001, UHF), &vec![]).unwrap();
    assert!(d.destinations.is_empty());
}

#[test]
fn lobby_frequency_bypasses_coalition_security() {
    let mut opts = ServerOptions::default();
    opts.general.coalition_audio_security = true;
    let mut reg = ClientState::new();
    reg.add_client(1, client("blueone", 2, 1, None, vec![radio(LOBBY, AM)])).unwrap();
    reg.add_client(2, client("redone", 1, 2, Some(9002), vec![radio(LOBBY, AM)])).unwrap();
    let d = process_frame(&mut reg, &opts.general, &frame("blueone", 9001, LOBBY), &vec![])
        .unwrap();
    assert_eq!(d.destinations, vec![9002]);
}

#[test]
fn test_frequency_bypasses_coalition_security() {
    let mut opts = ServerOptions::default();
    opts.general.coalition_audio_security = true;
    let test_freq = opts.general.test_frequencies[0];
    let mut reg = ClientState::new();
    reg.add_client(1, client("blueone", 2, 1, None, vec![radio(test_freq, AM)])).unwrap();
    reg.add_client(2, client("redone", 1, 2, Some(9002), vec![radio(test_freq, AM)]))
        .unwrap();
    let d = process_frame(&mut reg, &opts.general, &frame("blueone", 9001, test_freq), &vec![])
        .unwrap();
    assert_eq!(d.destinations, vec![9002]);
}

#[test]
fn without_security_opposite_coalitions_share_frequencies() {
    let opts = ServerOptions::default();
    let mut reg = ClientState::new();
    reg.add_client(1, client("blueone", 2, 1, None, vec![radio(UHF, AM)])).unwrap();
    reg.add_client(2, client("redone", 1, 2, Some(9002), vec![radio(UHF, AM)])).unwrap();
    let d = process_frame(&mut reg, &opts.general, &frame("blueone", 9001, UHF), &vec![]).unwrap();
    assert_eq!(d.destinations, vec![9002]);
}

#[test]
fn strict_encryption_requires_equal_encryption_state() {
    let mut opts = ServerOptions::default();
    opts.general.allow_radio_encryption = true;
    opts.general.strict_radio_encryption = true;
    let mut reg = ClientState::new();
    reg.add_client(1, client("alpha", 2, 1, None, vec![radio(UHF, AM)])).unwrap();
    reg.add_client(2, client("clear", 2, 2, Some(9002), vec![radio(UHF, AM)])).unwrap();
    let mut enc_radio = radio(UHF, AM);
    enc_radio.enc = true;
    enc_radio.enc_key = 7;
    reg.add_client(3, client("coded", 2, 3, Some(9003), vec![enc_radio])).unwrap();

    let mut f = frame("alpha", 9001, UHF);
    f.transmission.enc = true;
    f.transmission.enc_key = 7;
    let d = process_frame(&mut reg, &opts.general, &f, &vec![]).unwrap();
    assert_eq!(d.destinations, vec![9003]);
}

#[test]
fn encryption_keys_must_agree_when_both_sides_encrypt() {
    let mut opts = ServerOptions::default();
    opts.general.allow_radio_encryption = true;
    let mut reg = ClientState::new();
    reg.add_client(1, client("alpha", 2, 1, None, vec![radio(UHF, AM)])).unwrap();
    let mut other_key = radio(UHF, AM);
    other_key.enc = true;
    other_key.enc_key = 9;
    reg.add_client(2, client("coded", 2, 2, Some(9002), vec![other_key])).unwrap();

    let mut f = frame("alpha", 9001, UHF);
    f.transmission.enc = true;
    f.transmission.enc_key = 7;
    let d = process_frame(&mut reg, &opts.general, &f, &vec![]).unwrap();
    assert!(d.destinations.is_empty());
}

#[test]
fn propagation_suppression_removes_a_matching_destination() {
    let opts = ServerOptions::default();
    let mut reg = ClientState::new();
    reg.add_client(1, client("alpha", 2, 1, None, vec![radio(UHF, AM)])).unwrap();
    reg.add_client(2, client("bravo", 2, 2, Some(9002), vec![radio(UHF, AM)])).unwrap();
    let d = process_frame(&mut reg, &opts.general, &frame("alpha", 9001, UHF), &vec![2]).unwrap();
    assert!(d.destinations.is_empty());
}

#[test]
fn retransmission_radio_relays_once() {
    let opts = ServerOptions::default();
    let mut reg = ClientState::new();
    let mut relay_radio = radio(UHF, AM);
    relay_radio.retransmit = true;
    reg.add_client(1, client("alpha", 2, 1, None, vec![radio(UHF, AM)])).unwrap();
    reg.add_client(2, client("node", 2, 2, Some(9002), vec![relay_radio])).unwrap();

    let d = process_frame(&mut reg, &opts.general, &frame("alpha", 9001, UHF), &vec![]).unwrap();
    assert_eq!(d.relays, vec!["node".to_string()]);

    // a frame already carrying the relay's origin tag is never relayed again
    let mut tagged = frame("alpha", 9001, UHF);
    tagged.origins = vec!["node".to_string()];
    let d2 = process_frame(&mut reg, &opts.general, &tagged, &vec![]).unwrap();
    assert!(d2.relays.is_empty());
}

#[test]
fn relay_cap_limits_the_relay_count() {
    let mut opts = ServerOptions::default();
    opts.general.retransmission_node_limit = 1;
    let mut reg = ClientState::new();
    let mut r1 = radio(UHF, AM);
    r1.retransmit = true;
    let r2 = r1;
    reg.add_client(1, client("alpha", 2, 1, None, vec![radio(UHF, AM)])).unwrap();
    reg.add_client(2, client("nodeone", 2, 2, Some(9002), vec![r1])).unwrap();
    reg.add_client(3, client("nodetwo", 2, 3, Some(9003), vec![r2])).unwrap();

    let d = process_frame(&mut reg, &opts.general, &frame("alpha", 9001, UHF), &vec![]).unwrap();
    assert_eq!(d.relays, vec!["nodeone".to_string()]);

    opts.general.retransmission_node_limit = 0;
    let d2 = process_frame(&mut reg, &opts.general, &frame("alpha", 9001, UHF), &vec![]).unwrap();
    assert_eq!(d2.relays, vec!["nodeone".to_string(), "nodetwo".to_string()]);
}

#[test]
fn only_unclassified_receive_failures_are_fatal() {
    assert!(!receive_failure_is_fatal(ReceiveFailure::ConnectionReset));
    assert!(!receive_failure_is_fatal(ReceiveFailure::ConnectionAborted));
    assert!(receive_failure_is_fatal(ReceiveFailure::Other));
}

#[test]
fn sender_never_routes_to_itself() {
    let opts = ServerOptions::default();
    let mut reg = ClientState::new();
    reg.add_client(1, client("alpha", 2, 1, Some(9001), vec![radio(UHF, AM)])).unwrap();
    let d = process_frame(&mut reg, &opts.general, &frame("alpha", 9001, UHF), &vec![]).unwrap();
    assert!(d.destinations.is_empty());
}
