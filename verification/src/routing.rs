//! The voice routing decision engine.
//!
//! For each inbound frame the engine resolves the sender by the session id
//! embedded in the frame, learns the sender's voice endpoint from the
//! frame's source, and computes the fan-out: every other session with a
//! radio tuned to the transmission — frequency within tolerance, equal
//! modulation, compatible encryption — that the coalition filter admits
//! and that the propagation filter has not suppressed.  Destinations
//! without a learned voice endpoint are skipped; tuned retransmission
//! radios yield relay re-emissions, bounded by the server-wide cap and
//! barred from relaying a frame that already carries their own origin tag.
//!
//! The propagation filter (line of sight, distance) is an injectable
//! external strategy: the caller evaluates it and passes the endpoints it
//! suppresses, so every decision here is exact over plain values.

use vstd::prelude::*;
use crate::config::GeneralSettings;
use crate::error::ServerError;
use crate::state::{client_has_id, Client, ClientState, Radio};

verus! {

/// How far apart, in hertz, two frequencies may lie and still match.
pub const FREQ_TOLERANCE_HZ: u64 = 1_000;

/// The radio parameters a frame is transmitted with.
#[derive(Clone, Copy, PartialEq, Eq, Structural, Debug)]
pub struct Transmission {
    pub freq: u64,
    pub modulation: i32,
    pub enc: bool,
    pub enc_key: i32,
}

/// One inbound voice frame as the external codec hands it over: the
/// embedded sender identity, the relay origin tags already on the frame,
/// the endpoint it arrived from, and its transmission parameters.  Payload
/// bytes are opaque and never enter the library.
#[derive(Clone, Debug)]
pub struct VoiceFrame {
    pub sender_id: String,
    pub origins: Vec<String>,
    pub source: u64,
    pub transmission: Transmission,
}

/// The fan-out decision for one frame: the voice endpoints to emit to,
/// and the session ids of the relays that re-emit it as a new origin.
#[derive(Debug)]
pub struct RouteDecision {
    pub destinations: Vec<u64>,
    pub relays: Vec<String>,
}

/// Two frequencies lie within the matching tolerance of each other.
pub open spec fn freq_within_tolerance(a: u64, b: u64) -> bool {
    a <= b + FREQ_TOLERANCE_HZ && b <= a + FREQ_TOLERANCE_HZ
}

/// The encryption rule: when encryption is not allowed it is ignored;
/// when allowed, both sides encrypted must agree on the key; the stricter
/// mode additionally requires both sides equally encrypted or both clear.
pub open spec fn encryption_compatible(g: GeneralSettings, tx: Transmission, r: Radio) -> bool {
    if !g.allow_radio_encryption {
        true
    } else if g.strict_radio_encryption {
        tx.enc == r.enc && (tx.enc ==> tx.enc_key == r.enc_key)
    } else {
        tx.enc && r.enc ==> tx.enc_key == r.enc_key
    }
}

/// A destination radio receives the transmission: its active or standby
/// frequency lies within tolerance, the modulation is equal, and the
/// encryption rule holds.
pub open spec fn radio_tuned(r: Radio, tx: Transmission, g: GeneralSettings) -> bool {
    &&& freq_within_tolerance(r.freq, tx.freq) || freq_within_tolerance(r.standby_freq, tx.freq)
    &&& r.modulation == tx.modulation
    &&& encryption_compatible(g, tx, r)
}

/// Some radio of the session receives the transmission.
pub open spec fn session_tuned(c: Client, tx: Transmission, g: GeneralSettings) -> bool {
    c.radio_information matches Some(ri) && exists|k: int|
        0 <= k < ri.radios@.len() && radio_tuned(#[trigger] ri.radios@[k], tx, g)
}

/// Some tuned radio of the session is retransmission-enabled.
pub open spec fn session_retransmits(c: Client, tx: Transmission, g: GeneralSettings) -> bool {
    c.radio_information matches Some(ri) && exists|k: int|
        0 <= k < ri.radios@.len() && radio_tuned(#[trigger] ri.radios@[k], tx, g)
            && ri.radios@[k].retransmit
}

/// Frequencies exempt from coalition security: the global lobby frequency
/// and the configured test frequencies.
pub open spec fn freq_exempt(g: GeneralSettings, f: u64) -> bool {
    f == g.global_lobby_freq || g.test_frequencies@.contains(f)
}

/// The coalition filter: with audio security off every coalition is
/// admitted; with it on, only the sender's own coalition — unless the
/// frequency is exempt, which always bypasses the filter.
pub open spec fn coalition_allows(
    g: GeneralSettings,
    sender_coalition: i32,
    dest_coalition: i32,
    f: u64,
) -> bool {
    !g.coalition_audio_security || sender_coalition == dest_coalition || freq_exempt(g, f)
}

/// The frame already carries this origin tag.
pub open spec fn origins_contain(os: Seq<String>, id: Seq<char>) -> bool {
    exists|i: int| 0 <= i < os.len() && #[trigger] os[i]@ == id
}

/// A registry entry matches the transmission: it is not the sender, some
/// radio of it is tuned, the coalition filter admits it, and the
/// propagation filter has not suppressed it.
pub open spec fn matches_transmission(
    entry: (u64, Client),
    sender_key: u64,
    sender_coalition: i32,
    tx: Transmission,
    g: GeneralSettings,
    suppressed: Seq<u64>,
) -> bool {
    &&& entry.0 != sender_key
    &&& session_tuned(entry.1, tx, g)
    &&& coalition_allows(g, sender_coalition, entry.1.coalition, tx.freq)
    &&& !suppressed.contains(entry.0)
}

/// A matching entry is emitted to only once its voice endpoint is known.
pub open spec fn destination_eligible(
    entry: (u64, Client),
    sender_key: u64,
    sender_coalition: i32,
    tx: Transmission,
    g: GeneralSettings,
    suppressed: Seq<u64>,
) -> bool {
    &&& matches_transmission(entry, sender_key, sender_coalition, tx, g, suppressed)
    &&& entry.1.voice_addr is Some
}

/// A matching entry relays the frame if a tuned radio of it is
/// retransmission-enabled and its own origin tag is not already on the
/// frame (loop prevention).
pub open spec fn relay_eligible(
    entry: (u64, Client),
    sender_key: u64,
    sender_coalition: i32,
    tx: Transmission,
    g: GeneralSettings,
    suppressed: Seq<u64>,
    origins: Seq<String>,
) -> bool {
    &&& matches_transmission(entry, sender_key, sender_coalition, tx, g, suppressed)
    &&& session_retransmits(entry.1, tx, g)
    &&& (entry.1.id matches Some(s) && !origins_contain(origins, s@))
}

/// The voice endpoints the frame is emitted to, in registry order.
pub open spec fn route_targets(
    s: Seq<(u64, Client)>,
    sender_key: u64,
    sender_coalition: i32,
    tx: Transmission,
    g: GeneralSettings,
    suppressed: Seq<u64>,
) -> Seq<u64>
    decreases s.len(),
{
    if s.len() == 0 {
        Seq::empty()
    } else {
        let rest = route_targets(s.drop_last(), sender_key, sender_coalition, tx, g, suppressed);
        if destination_eligible(s.last(), sender_key, sender_coalition, tx, g, suppressed) {
            rest.push(s.last().1.voice_addr->0)
        } else {
            rest
        }
    }
}

/// The session ids of the relay candidates, in registry order and before
/// the cap is applied.
pub open spec fn relay_candidates(
    s: Seq<(u64, Client)>,
    sender_key: u64,
    sender_coalition: i32,
    tx: Transmission,
    g: GeneralSettings,
    suppressed: Seq<u64>,
    origins: Seq<String>,
) -> Seq<String>
    decreases s.len(),
{
    if s.len() == 0 {
        Seq::empty()
    } else {
        let rest = relay_candidates(
            s.drop_last(),
            sender_key,
            sender_coalition,
            tx,
            g,
            suppressed,
            origins,
        );
        if relay_eligible(s.last(), sender_key, sender_coalition, tx, g, suppressed, origins) {
            rest.push(s.last().1.id->0)
        } else {
            rest
        }
    }
}

/// The server-wide relay cap: 0 means unlimited, otherwise the first
/// `cap` candidates in registry order relay the frame.
pub open spec fn capped(ids: Seq<String>, cap: u32) -> Seq<String> {
    if cap == 0 || ids.len() <= cap {
        ids
    } else {
        ids.take(cap as int)
    }
}

/// Exact tolerance comparison, free of overflow.
fn freq_matches(a: u64, b: u64) -> (r: bool)
    ensures
        r == freq_within_tolerance(a, b),
{
    if a >= b {
        a - b <= FREQ_TOLERANCE_HZ
    } else {
        b - a <= FREQ_TOLERANCE_HZ
    }
}

/// Whether one radio receives the transmission.
fn radio_is_tuned(r: &Radio, tx: &Transmission, g: &GeneralSettings) -> (b: bool)
    ensures
        b == radio_tuned(*r, *tx, *g),
{
    let freq_ok = freq_matches(r.freq, tx.freq) || freq_matches(r.standby_freq, tx.freq);
    if !freq_ok {
        return false;
    }
    if r.modulation != tx.modulation {
        return false;
    }
    if !g.allow_radio_encryption {
        true
    } else if g.strict_radio_encryption {
        r.enc == tx.enc && (!tx.enc || r.enc_key == tx.enc_key)
    } else {
        !(tx.enc && r.enc) || tx.enc_key == r.enc_key
    }
}

/// Whether some radio of the session receives the transmission.
fn session_is_tuned(c: &Client, tx: &Transmission, g: &GeneralSettings) -> (b: bool)
    ensures
        b == session_tuned(*c, *tx, *g),
{
    match &c.radio_information {
        None => false,
        Some(ri) => {
            let n: usize = ri.radios.len();
            let mut k: usize = 0;
            while k < n
                invariant
                    c.radio_information == Some(*ri),
                    n == ri.radios@.len(),
                    k <= n,
                    forall|j: int| 0 <= j < k ==> !radio_tuned(#[trigger] ri.radios@[j], *tx, *g),
                decreases n - k,
            {
                if radio_is_tuned(&ri.radios[k], tx, g) {
                    proof {
                        let rr = c.radio_information->0;
                        assert(radio_tuned(rr.radios@[k as int], *tx, *g));
                    }
                    return true;
                }
                k = k + 1;
            }
            false
        },
    }
}

/// Whether some tuned radio of the session is retransmission-enabled.
fn session_does_retransmit(c: &Client, tx: &Transmission, g: &GeneralSettings) -> (b: bool)
    ensures
        b == session_retransmits(*c, *tx, *g),
{
    match &c.radio_information {
        None => false,
        Some(ri) => {
            let n: usize = ri.radios.len();
            let mut k: usize = 0;
            while k < n
                invariant
                    c.radio_information == Some(*ri),
                    n == ri.radios@.len(),
                    k <= n,
                    forall|j: int|
                        0 <= j < k ==> !(radio_tuned(#[trigger] ri.radios@[j], *tx, *g)
                            && ri.radios@[j].retransmit),
                decreases n - k,
            {
                if ri.radios[k].retransmit && radio_is_tuned(&ri.radios[k], tx, g) {
                    proof {
                        let rr = c.radio_information->0;
                        assert(radio_tuned(rr.radios@[k as int], *tx, *g) && rr.radios@[k as int].retransmit);
                    }
                    return true;
                }
                k = k + 1;
            }
            false
        },
    }
}

/// Whether the propagation filter suppressed this endpoint.
fn endpoint_suppressed(suppressed: &Vec<u64>, x: u64) -> (b: bool)
    ensures
        b == suppressed@.contains(x),
{
    let n: usize = suppressed.len();
    let mut k: usize = 0;
    while k < n
        invariant
            n == suppressed@.len(),
            k <= n,
            forall|j: int| 0 <= j < k ==> suppressed@[j] != x,
        decreases n - k,
    {
        if suppressed[k] == x {
            return true;
        }
        k = k + 1;
    }
    false
}

/// Whether the frame already carries this origin tag.
fn has_origin_tag(origins: &Vec<String>, id: &String) -> (b: bool)
    ensures
        b == origins_contain(origins@, id@),
{
    let n: usize = origins.len();
    let mut k: usize = 0;
    while k < n
        invariant
            n == origins@.len(),
            k <= n,
            forall|j: int| 0 <= j < k ==> #[trigger] origins@[j]@ != id@,
        decreases n - k,
    {
        if origins[k] == *id {
            return true;
        }
        k = k + 1;
    }
    false
}

/// Whether one registry entry matches the transmission.
fn entry_matches(
    entry: &(u64, Client),
    sender_key: u64,
    sender_coalition: i32,
    tx: &Transmission,
    g: &GeneralSettings,
    suppressed: &Vec<u64>,
) -> (b: bool)
    ensures
        b == matches_transmission(*entry, sender_key, sender_coalition, *tx, *g, suppressed@),
{
    if entry.0 == sender_key {
        return false;
    }
    if !session_is_tuned(&entry.1, tx, g) {
        return false;
    }
    let coalition_ok = !g.coalition_audio_security || sender_coalition == entry.1.coalition
        || is_freq_exempt(g, tx.freq);
    if !coalition_ok {
        return false;
    }
    !endpoint_suppressed(suppressed, entry.0)
}

/// Whether the frequency bypasses coalition security.
fn is_freq_exempt(g: &GeneralSettings, f: u64) -> (b: bool)
    ensures
        b == freq_exempt(*g, f),
{
    if f == g.global_lobby_freq {
        return true;
    }
    let n: usize = g.test_frequencies.len();
    let mut k: usize = 0;
    while k < n
        invariant
            n == g.test_frequencies@.len(),
            k <= n,
            forall|j: int| 0 <= j < k ==> g.test_frequencies@[j] != f,
        decreases n - k,
    {
        if g.test_frequencies[k] == f {
            return true;
        }
        k = k + 1;
    }
    false
}

/// The destination fan-out for one transmission: exactly the voice
/// endpoints of the eligible entries, in registry order.
pub fn compute_destinations(
    state: &ClientState,
    g: &GeneralSettings,
    sender_key: u64,
    sender_coalition: i32,
    tx: &Transmission,
    suppressed: &Vec<u64>,
) -> (out: Vec<u64>)
    ensures
        out@ == route_targets(state@, sender_key, sender_coalition, *tx, *g, suppressed@),
{
    let n: usize = state.len();
    let mut out: Vec<u64> = Vec::new();
    let mut k: usize = 0;
    while k < n
        invariant
            n == state@.len(),
            k <= n,
            out@ == route_targets(
                state@.take(k as int),
                sender_key,
                sender_coalition,
                *tx,
                *g,
                suppressed@,
            ),
        decreases n - k,
    {
        proof {
            assert(state@.take(k + 1).drop_last() =~= state@.take(k as int));
            assert(state@.take(k + 1).last() == state@[k as int]);
        }
        let entry = state.get_entry(k);
        if entry_matches(entry, sender_key, sender_coalition, tx, g, suppressed) {
            match &entry.1.voice_addr {
                Some(v) => out.push(*v),
                None => {},
            }
        }
        k = k + 1;
    }
    proof {
        assert(state@.take(n as int) =~= state@);
    }
    out
}

/// The relay fan-out for one frame: the first candidates in registry
/// order, up to the server-wide cap.
pub fn compute_relays(
    state: &ClientState,
    g: &GeneralSettings,
    sender_key: u64,
    sender_coalition: i32,
    tx: &Transmission,
    suppressed: &Vec<u64>,
    origins: &Vec<String>,
) -> (out: Vec<String>)
    ensures
        out@ == capped(
            relay_candidates(state@, sender_key, sender_coalition, *tx, *g, suppressed@, origins@),
            g.retransmission_node_limit,
        ),
{
    let n: usize = state.len();
    let mut out: Vec<String> = Vec::new();
    let mut k: usize = 0;
    while k < n
        invariant
            n == state@.len(),
            k <= n,
            out@ == relay_candidates(
                state@.take(k as int),
                sender_key,
                sender_coalition,
                *tx,
                *g,
                suppressed@,
                origins@,
            ),
        decreases n - k,
    {
        proof {
            assert(state@.take(k + 1).drop_last() =~= state@.take(k as int));
            assert(state@.take(k + 1).last() == state@[k as int]);
        }
        let entry = state.get_entry(k);
        if entry_matches(entry, sender_key, sender_coalition, tx, g, suppressed) {
            if session_does_retransmit(&entry.1, tx, g) {
                match &entry.1.id {
                    Some(id) => {
                        if !has_origin_tag(origins, id) {
                            out.push(id.clone());
                        }
                    },
                    None => {},
                }
            }
        }
        k = k + 1;
    }
    proof {
        assert(state@.take(n as int) =~= state@);
    }
    let cap: u32 = g.retransmission_node_limit;
    if cap != 0 && out.len() > cap as usize {
        out.truncate(cap as usize);
    }
    out
}

/// Processes one inbound frame: resolves the sender by its embedded
/// session id — an unknown id drops the frame as an unauthenticated
/// packet — learns the sender's voice endpoint from the frame's source,
/// and computes the destination and relay fan-out against the resulting
/// registry snapshot.
pub fn process_frame(
    state: &mut ClientState,
    g: &GeneralSettings,
    frame: &VoiceFrame,
    suppressed: &Vec<u64>,
) -> (r: Result<RouteDecision, ServerError>)
    requires
        old(state).wf(),
    ensures
        final(state).wf(),
        r is Err <==> (forall|j: int|
            0 <= j < old(state)@.len() ==> !client_has_id(
                #[trigger] old(state)@[j].1,
                frame.sender_id@,
            )),
        r matches Err(e) ==> e is ClientError && final(state)@ == old(state)@,
        r matches Ok(d) ==> exists|i: int|
            0 <= i < old(state)@.len() && client_has_id(
                #[trigger] old(state)@[i].1,
                frame.sender_id@,
            ) && ({
                let s1 = if old(state)@[i].1.voice_addr is Some {
                    old(state)@
                } else {
                    old(state)@.update(
                        i,
                        (
                            old(state)@[i].0,
                            (Client { voice_addr: Some(frame.source), ..old(state)@[i].1 }),
                        ),
                    )
                };
                &&& final(state)@ == s1
                &&& d.destinations@ == route_targets(
                    s1,
                    old(state)@[i].0,
                    old(state)@[i].1.coalition,
                    frame.transmission,
                    *g,
                    suppressed@,
                )
                &&& d.relays@ == capped(
                    relay_candidates(
                        s1,
                        old(state)@[i].0,
                        old(state)@[i].1.coalition,
                        frame.transmission,
                        *g,
                        suppressed@,
                        frame.origins@,
                    ),
                    g.retransmission_node_limit,
                )
            }),
{
    match state.find_by_session_id(&frame.sender_id) {
        None => Err(ServerError::ClientError(String::from_str("Unauthenticated voice packet"))),
        Some(i) => {
            let sender_key: u64 = state.get_entry(i).0;
            let sender_coalition: i32 = state.get_entry(i).1.coalition;
            state.learn_voice_addr(i, frame.source);
            let destinations = compute_destinations(
                state,
                g,
                sender_key,
                sender_coalition,
                &frame.transmission,
                suppressed,
            );
            let relays = compute_relays(
                state,
                g,
                sender_key,
                sender_coalition,
                &frame.transmission,
                suppressed,
                &frame.origins,
            );
            Ok(RouteDecision { destinations, relays })
        },
    }
}

/// How a receive on the voice socket failed, as plain values; the
/// transport maps its error kinds onto these.
#[derive(Clone, Copy, PartialEq, Eq, Structural, Debug)]
pub enum ReceiveFailure {
    ConnectionReset,
    ConnectionAborted,
    Other,
}

/// Whether a receive failure ends the engine: transient peer-side
/// failures are ignored and the loop continues; everything else is fatal
/// and escalates to the supervisor.
pub fn receive_failure_is_fatal(failure: ReceiveFailure) -> (fatal: bool)
    ensures
        fatal == (failure is Other),
{
    match failure {
        ReceiveFailure::ConnectionReset => false,
        ReceiveFailure::ConnectionAborted => false,
        ReceiveFailure::Other => true,
    }
}

/// Law (completeness of delivery): every eligible entry's voice endpoint
/// is among the route targets.  In particular, a same-coalition session
/// tuned to the sender's frequency and modulation, with no propagation
/// suppression and a learned voice endpoint, receives the frame.
pub proof fn lemma_route_targets_complete(
    s: Seq<(u64, Client)>,
    sender_key: u64,
    sender_coalition: i32,
    tx: Transmission,
    g: GeneralSettings,
    suppressed: Seq<u64>,
    i: int,
)
    requires
        0 <= i < s.len(),
        destination_eligible(s[i], sender_key, sender_coalition, tx, g, suppressed),
    ensures
        route_targets(s, sender_key, sender_coalition, tx, g, suppressed).contains(
            s[i].1.voice_addr->0,
        ),
    decreases s.len(),
{
    let out = route_targets(s, sender_key, sender_coalition, tx, g, suppressed);
    let rest = route_targets(s.drop_last(), sender_key, sender_coalition, tx, g, suppressed);
    if i == s.len() - 1 {
        assert(out == rest.push(s[i].1.voice_addr->0));
        assert(out[out.len() - 1] == s[i].1.voice_addr->0);
    } else {
        lemma_route_targets_complete(
            s.drop_last(),
            sender_key,
            sender_coalition,
            tx,
            g,
            suppressed,
            i,
        );
        let v = s[i].1.voice_addr->0;
        let k = choose|k: int| 0 <= k < rest.len() && rest[k] == v;
        if destination_eligible(s.last(), sender_key, sender_coalition, tx, g, suppressed) {
            assert(out[k] == v);
        } else {
            assert(out[k] == v);
        }
    }
}

/// Law (soundness of delivery): every route target is the voice endpoint
/// of some eligible entry.  In particular, a session with no radio tuned
/// to the transmission — a detuned endpoint — never receives the frame,
/// and with coalition security on, an opposite-coalition session on a
/// non-exempt frequency never does.
pub proof fn lemma_route_targets_sound(
    s: Seq<(u64, Client)>,
    sender_key: u64,
    sender_coalition: i32,
    tx: Transmission,
    g: GeneralSettings,
    suppressed: Seq<u64>,
    v: u64,
)
    requires
        route_targets(s, sender_key, sender_coalition, tx, g, suppressed).contains(v),
    ensures
        exists|i: int|
            0 <= i < s.len() && destination_eligible(
                #[trigger] s[i],
                sender_key,
                sender_coalition,
                tx,
                g,
                suppressed,
            ) && s[i].1.voice_addr == Some(v),
    decreases s.len(),
{
    let out = route_targets(s, sender_key, sender_coalition, tx, g, suppressed);
    let rest = route_targets(s.drop_last(), sender_key, sender_coalition, tx, g, suppressed);
    if destination_eligible(s.last(), sender_key, sender_coalition, tx, g, suppressed) && s.last(

    ).1.voice_addr == Some(v) {
        assert(destination_eligible(s[s.len() - 1], sender_key, sender_coalition, tx, g, suppressed)
            && s[s.len() - 1].1.voice_addr == Some(v));
    } else {
        let k = choose|k: int| 0 <= k < out.len() && out[k] == v;
        if destination_eligible(s.last(), sender_key, sender_coalition, tx, g, suppressed) {
            assert(out == rest.push(s.last().1.voice_addr->0));
            assert(k < rest.len());
            assert(rest[k] == v);
        } else {
            assert(rest[k] == v);
        }
        lemma_route_targets_sound(s.drop_last(), sender_key, sender_coalition, tx, g, suppressed, v);
        let i = choose|i: int|
            0 <= i < s.drop_last().len() && destination_eligible(
                #[trigger] s.drop_last()[i],
                sender_key,
                sender_coalition,
                tx,
                g,
                suppressed,
            ) && s.drop_last()[i].1.voice_addr == Some(v);
        assert(s[i] == s.drop_last()[i]);
    }
}

/// Law (coalition security): with audio security enabled, an entry of the
/// opposite coalition on a frequency that is neither the lobby nor a test
/// frequency matches no transmission, so it neither receives nor relays.
pub proof fn lemma_coalition_security_blocks(
    entry: (u64, Client),
    sender_key: u64,
    sender_coalition: i32,
    tx: Transmission,
    g: GeneralSettings,
    suppressed: Seq<u64>,
)
    requires
        g.coalition_audio_security,
        entry.1.coalition != sender_coalition,
        !freq_exempt(g, tx.freq),
    ensures
        !matches_transmission(entry, sender_key, sender_coalition, tx, g, suppressed),
{
}

/// Law (lobby exemption): on the global lobby frequency the coalition
/// filter never blocks — a tuned, unsuppressed entry other than the
/// sender, with a learned voice endpoint, is eligible whatever its
/// coalition.
pub proof fn lemma_lobby_frequency_bypasses(
    entry: (u64, Client),
    sender_key: u64,
    sender_coalition: i32,
    tx: Transmission,
    g: GeneralSettings,
    suppressed: Seq<u64>,
)
    requires
        tx.freq == g.global_lobby_freq,
        entry.0 != sender_key,
        session_tuned(entry.1, tx, g),
        !suppressed.contains(entry.0),
        entry.1.voice_addr is Some,
    ensures
        destination_eligible(entry, sender_key, sender_coalition, tx, g, suppressed),
{
}

} // verus!
