//! Core of a voice relay and session server for a flight-simulation radio
//! network.
//!
//! Clients authenticate over a reliable session channel, report their radio
//! state, and exchange voice frames over an unreliable channel.  This crate
//! holds the verified core: the session protocol state machine, the client
//! registry, the voice routing decision engine, and the event bus with its
//! retry supervisor.  Network transports and serialization live outside the
//! library and hand it plain values.

use vstd::prelude::*;

pub mod config;
pub mod error;
pub mod events;
pub mod protocol;
pub mod routing;
pub mod session;
pub mod state;
pub mod supervisor;
pub mod utils;

verus! {

/// Administrative intent for the server process as a whole.
pub enum ControlMessage {
    Start,
    Stop,
}

} // verus!
