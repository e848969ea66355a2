//! Process-wide server configuration.
//!
//! Options are loaded once at startup and replaced wholesale on any
//! administrative change; the core never mutates them in place.  All
//! frequencies are carried as integer hertz, so tolerance and exemption
//! checks are exact.

use vstd::prelude::*;
use crate::error::{ConfigError, VoiceServerError};

verus! {

/// Default global lobby frequency, in hertz (248.22 MHz).
pub const DEFAULT_LOBBY_FREQ_HZ: u64 = 248_220_000;

/// Default test frequencies, in hertz (247.2 MHz and 120.3 MHz).
pub const DEFAULT_TEST_FREQ_A_HZ: u64 = 247_200_000;

pub const DEFAULT_TEST_FREQ_B_HZ: u64 = 120_300_000;

/// Default reliable/voice bind port.
pub const DEFAULT_SERVER_PORT: u16 = 5002;

/// Default idle timeout on the session channel, in seconds.
pub const DEFAULT_SESSION_TIMEOUT_SECS: u64 = 30;

/// Behavioural toggles: audio security, propagation realism, encryption
/// policy, and the server-wide retransmission cap (0 means unlimited).
#[derive(Clone)]
pub struct GeneralSettings {
    pub transmissing_log: bool,
    pub client_export: bool,
    pub client_lotac: bool,
    pub test_frequencies: Vec<u64>,
    pub global_lobby_freq: u64,
    pub external_awacs_mode: bool,
    pub coalition_audio_security: bool,
    pub spectators_audio_disabled: bool,
    pub los_enabled: bool,
    pub distance_enabled: bool,
    pub irl_radio_tx: bool,
    pub irl_radio_rx_interference: bool,
    pub radio_expansion: bool,
    pub allow_radio_encryption: bool,
    pub strict_radio_encryption: bool,
    pub show_tuned_count: bool,
    pub radio_effect_override: bool,
    pub show_transmitter_name: bool,
    pub transmission_log_retention: u32,
    pub retransmission_node_limit: u32,
    pub terminate_on_malformed: bool,
}

/// Where the server binds, bookkeeping paths, and the session idle
/// timeout.
#[derive(Clone)]
pub struct ServerSettings {
    pub ban_list_file_path: String,
    pub server_ip: String,
    pub server_port: u16,
    pub upnp_enabled: bool,
    pub session_timeout_secs: u64,
}

/// The two coalition shared secrets; a login's coalition is derived from
/// which secret its password digest matches.
#[derive(Clone)]
pub struct AwacsSettings {
    pub blue_password: String,
    pub red_password: String,
}

/// The whole configuration: general toggles, bind settings, and the
/// coalition secrets.
#[derive(Clone)]
pub struct ServerOptions {
    pub general: GeneralSettings,
    pub server: ServerSettings,
    pub awacs: AwacsSettings,
}

/// What `ServerOptions::validate` accepts: a non-zero port, a non-empty
/// test-frequency set, and a positive lobby frequency.
pub open spec fn options_valid(o: ServerOptions) -> bool {
    &&& o.server.server_port != 0
    &&& o.general.test_frequencies@.len() > 0
    &&& o.general.global_lobby_freq > 0
}

impl ServerOptions {
    /// Startup validation; a failure here prevents the core from starting.
    pub fn validate(&self) -> (r: Result<(), ConfigError>)
        ensures
            r is Ok <==> options_valid(*self),
            r matches Err(e) ==> e is ValidationError,
    {
        if self.server.server_port == 0 {
            return Err(ConfigError::ValidationError(
                String::from_str("Server port cannot be 0"),
            ));
        }
        if self.general.test_frequencies.len() == 0 {
            return Err(ConfigError::ValidationError(
                String::from_str("Test frequencies cannot be empty"),
            ));
        }
        if self.general.global_lobby_freq == 0 {
            return Err(ConfigError::ValidationError(
                String::from_str("Global lobby frequency must be positive"),
            ));
        }
        Ok(())
    }

    /// The address and port the handlers bind: the address must be
    /// non-empty and the port non-zero, else initialization fails.
    pub fn bind_config(&self) -> (r: Result<(String, u16), VoiceServerError>)
        ensures
            r is Ok <==> self.server.server_ip@.len() > 0 && self.server.server_port != 0,
            r matches Ok(c) ==> c.0@ == self.server.server_ip@ && c.1 == self.server.server_port,
            r matches Err(e) ==> e is InitError,
    {
        if self.server.server_ip.as_str().is_empty() {
            return Err(VoiceServerError::InitError(
                String::from_str("Server IP cannot be empty"),
            ));
        }
        if self.server.server_port == 0 {
            return Err(VoiceServerError::InitError(String::from_str("Invalid server port")));
        }
        Ok((self.server.server_ip.clone(), self.server.server_port))
    }
}

impl Default for GeneralSettings {
    fn default() -> (r: Self)
        ensures
            r.transmissing_log == false,
            r.client_export == false,
            r.client_lotac == false,
            r.test_frequencies@ == seq![DEFAULT_TEST_FREQ_A_HZ, DEFAULT_TEST_FREQ_B_HZ],
            r.global_lobby_freq == DEFAULT_LOBBY_FREQ_HZ,
            r.external_awacs_mode == false,
            r.coalition_audio_security == false,
            r.spectators_audio_disabled == false,
            r.los_enabled == false,
            r.distance_enabled == false,
            r.irl_radio_tx == false,
            r.irl_radio_rx_interference == false,
            r.radio_expansion == false,
            r.allow_radio_encryption == false,
            r.strict_radio_encryption == false,
            r.show_tuned_count == true,
            r.radio_effect_override == false,
            r.show_transmitter_name == true,
            r.transmission_log_retention == 2,
            r.retransmission_node_limit == 0,
            r.terminate_on_malformed == true,
    {
        let mut test_frequencies: Vec<u64> = Vec::new();
        test_frequencies.push(DEFAULT_TEST_FREQ_A_HZ);
        test_frequencies.push(DEFAULT_TEST_FREQ_B_HZ);
        assert(test_frequencies@ =~= seq![DEFAULT_TEST_FREQ_A_HZ, DEFAULT_TEST_FREQ_B_HZ]);
        GeneralSettings {
            transmissing_log: false,
            client_export: false,
            client_lotac: false,
            test_frequencies,
            global_lobby_freq: DEFAULT_LOBBY_FREQ_HZ,
            external_awacs_mode: false,
            coalition_audio_security: false,
            spectators_audio_disabled: false,
            los_enabled: false,
            distance_enabled: false,
            irl_radio_tx: false,
            irl_radio_rx_interference: false,
            radio_expansion: false,
            allow_radio_encryption: false,
            strict_radio_encryption: false,
            show_tuned_count: true,
            radio_effect_override: false,
            show_transmitter_name: true,
            transmission_log_retention: 2,
            retransmission_node_limit: 0,
            terminate_on_malformed: true,
        }
    }
}

impl Default for ServerSettings {
    fn default() -> (r: Self)
        ensures
            r.ban_list_file_path@ == "banlist.json"@,
            r.server_ip@ == "0.0.0.0"@,
            r.server_port == DEFAULT_SERVER_PORT,
            r.upnp_enabled == true,
            r.session_timeout_secs == DEFAULT_SESSION_TIMEOUT_SECS,
    {
        ServerSettings {
            ban_list_file_path: String::from_str("banlist.json"),
            server_ip: String::from_str("0.0.0.0"),
            server_port: DEFAULT_SERVER_PORT,
            upnp_enabled: true,
            session_timeout_secs: DEFAULT_SESSION_TIMEOUT_SECS,
        }
    }
}

impl Default for AwacsSettings {
    fn default() -> (r: Self)
        ensures
            r.blue_password@ == "blue"@,
            r.red_password@ == "red"@,
    {
        AwacsSettings {
            blue_password: String::from_str("blue"),
            red_password: String::from_str("red"),
        }
    }
}

impl Default for ServerOptions {
    fn default() -> (r: Self)
        ensures
            r.general.global_lobby_freq == DEFAULT_LOBBY_FREQ_HZ,
            r.general.test_frequencies@ == seq![DEFAULT_TEST_FREQ_A_HZ, DEFAULT_TEST_FREQ_B_HZ],
            r.general.coalition_audio_security == false,
            r.general.retransmission_node_limit == 0,
            r.server.server_port == DEFAULT_SERVER_PORT,
            r.awacs.blue_password@ == "blue"@,
            r.awacs.red_password@ == "red"@,
            options_valid(r),
    {
        ServerOptions {
            general: GeneralSettings::default(),
            server: ServerSettings::default(),
            awacs: AwacsSettings::default(),
        }
    }
}

} // verus!
