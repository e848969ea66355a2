//! The event bus: typed events between the components, a bounded channel
//! model, and the decisions taken when events arrive.
//!
//! Channels are bounded and order-preserving, and each send delivers at
//! most once.  The backpressure policy is explicit: a send to a full
//! channel is refused and reported to the sender, never silently dropped.

use vstd::prelude::*;
use crate::error::VoiceServerError;
use crate::protocol::ConnectionEvent;
use crate::state::{client_has_id, has_endpoint, lemma_endpoint_key_unique, Client, ClientState};

verus! {

/// Administrative intents from the user interface toward the voice
/// component.
#[derive(Clone, Debug)]
pub enum UiToVoiceEvent {
    Shutdown,
}

/// Administrative intents from the user interface toward the control
/// component: ban, kick, mute and their reversals, by session id.
#[derive(Clone, Debug)]
pub enum UiToControlEvent {
    BanClient { client_id: String },
    UnbanClient { client_id: String },
    KickClient { client_id: String },
    MuteClient { client_id: String },
    UnmuteClient { client_id: String },
}

/// Notifications from the voice component to the user interface.
#[derive(Clone, Debug)]
pub enum VoiceToUiEvent {
    Error { message: String },
}

/// Notifications from the control component to the user interface.
#[derive(Clone, Debug)]
pub enum ControlToUiEvent {
    ClientConnected { client_id: String },
    ClientDisconnected { client_id: String },
    Error { message: String },
}

/// Intents forwarded from the control component to the voice component.
#[derive(Clone, Debug)]
pub enum ControlToVoiceEvent {
    ClientConnected { client_id: String },
    ClientDisconnected { client_id: String },
    MuteClient { client_id: String },
    UnmuteClient { client_id: String },
}

/// The credentials an administrative client presents to the control
/// surface.
#[derive(Clone, Debug)]
pub struct AuthData {
    pub username: String,
    pub password: String,
}

/// A bounded FIFO channel: sends append, receives take the front, so
/// per-channel arrival order is preserved and each element is delivered
/// at most once.
pub struct BoundedQueue<T> {
    items: Vec<T>,
    capacity: usize,
}

impl<T> View for BoundedQueue<T> {
    type V = Seq<T>;

    closed spec fn view(&self) -> Seq<T> {
        self.items@
    }
}

impl<T> BoundedQueue<T> {
    /// The bound the channel was created with.
    pub closed spec fn spec_capacity(&self) -> usize {
        self.capacity
    }

    /// The channel never holds more than its bound.
    pub open spec fn wf(&self) -> bool {
        self@.len() <= self.spec_capacity()
    }

    pub fn new(capacity: usize) -> (q: Self)
        requires
            capacity >= 1,
        ensures
            q@ == Seq::<T>::empty(),
            q.spec_capacity() == capacity,
            q.wf(),
    {
        BoundedQueue { items: Vec::new(), capacity }
    }

    /// Offers one event; a full channel refuses it, telling the sender.
    pub fn send(&mut self, value: T) -> (ok: bool)
        requires
            old(self).wf(),
        ensures
            final(self).wf(),
            final(self).spec_capacity() == old(self).spec_capacity(),
            ok ==> old(self)@.len() < old(self).spec_capacity() && final(self)@ == old(self)@.push(value),
            !ok ==> old(self)@.len() == old(self).spec_capacity() && final(self)@ == old(self)@,
    {
        if self.items.len() < self.capacity {
            self.items.push(value);
            true
        } else {
            false
        }
    }

    /// Takes the oldest event, if any.
    pub fn recv(&mut self) -> (r: Option<T>)
        requires
            old(self).wf(),
        ensures
            final(self).wf(),
            final(self).spec_capacity() == old(self).spec_capacity(),
            old(self)@.len() == 0 ==> r is None && final(self)@ == old(self)@,
            old(self)@.len() > 0 ==> r == Some(old(self)@[0]) && final(self)@ == old(self)@.drop_first(),
    {
        if self.items.len() == 0 {
            None
        } else {
            let v = self.items.remove(0);
            proof {
                assert(self@ =~= old(self)@.drop_first());
            }
            Some(v)
        }
    }

    pub fn len(&self) -> (n: usize)
        ensures
            n == self@.len(),
    {
        self.items.len()
    }

    pub fn capacity(&self) -> (n: usize)
        ensures
            n == self.spec_capacity(),
    {
        self.capacity
    }
}

/// What enforcing an administrative intent produced, and what the
/// transport must still do: a kicked or banned session's registry entry
/// is already removed, and its connection at the returned endpoint must
/// be shut; mute and unmute travel on to the voice component; lifting a
/// ban is recorded by the external ban list.
#[derive(Clone, Debug)]
pub enum AdminOutcome {
    SessionRemoved { endpoint: u64 },
    NoSuchSession,
    ForwardToVoice(ControlToVoiceEvent),
    RecordUnban { client_id: String },
}

/// What happened to the registry and what outcome a kick or ban drew:
/// either the one entry carrying the session id is removed and its
/// endpoint named, or no live session carries the id and nothing changes.
pub open spec fn session_removal_ok(
    id: Seq<char>,
    s0: Seq<(u64, Client)>,
    s1: Seq<(u64, Client)>,
    r: AdminOutcome,
) -> bool {
    &&& (r matches AdminOutcome::SessionRemoved { endpoint } ==> exists|i: int|
        0 <= i < s0.len() && client_has_id(#[trigger] s0[i].1, id) && s0[i].0 == endpoint && s1
            == s0.remove(i))
    &&& (r is NoSuchSession ==> s1 == s0 && forall|j: int|
        0 <= j < s0.len() ==> !client_has_id(#[trigger] s0[j].1, id))
    &&& (r matches AdminOutcome::SessionRemoved { .. } || r is NoSuchSession)
}

/// Enforces an administrative intent from the user interface.  A kick or
/// a ban removes the named session from the registry and asks the caller
/// to shut its connection; a mute or unmute is forwarded to the voice
/// component; lifting a ban is handed back for the external ban list.
pub fn handle_ui_event(event: &UiToControlEvent, state: &mut ClientState) -> (r: AdminOutcome)
    requires
        old(state).wf(),
    ensures
        final(state).wf(),
        event matches UiToControlEvent::KickClient { client_id } ==> session_removal_ok(
            client_id@,
            old(state)@,
            final(state)@,
            r,
        ),
        event matches UiToControlEvent::BanClient { client_id } ==> session_removal_ok(
            client_id@,
            old(state)@,
            final(state)@,
            r,
        ),
        event matches UiToControlEvent::MuteClient { client_id } ==> final(state)@ == old(state)@
            && (r matches AdminOutcome::ForwardToVoice(fwd) && (fwd matches
        ControlToVoiceEvent::MuteClient { client_id: c } && c@ == client_id@)),
        event matches UiToControlEvent::UnmuteClient { client_id } ==> final(state)@ == old(
            state,
        )@ && (r matches AdminOutcome::ForwardToVoice(fwd) && (fwd matches
        ControlToVoiceEvent::UnmuteClient { client_id: c } && c@ == client_id@)),
        event matches UiToControlEvent::UnbanClient { client_id } ==> final(state)@ == old(
            state,
        )@ && (r matches AdminOutcome::RecordUnban { client_id: c } && c@ == client_id@),
{
    match event {
        UiToControlEvent::KickClient { client_id } => remove_session_by_id(client_id, state),
        UiToControlEvent::BanClient { client_id } => remove_session_by_id(client_id, state),
        UiToControlEvent::MuteClient { client_id } => AdminOutcome::ForwardToVoice(
            ControlToVoiceEvent::MuteClient { client_id: client_id.clone() },
        ),
        UiToControlEvent::UnmuteClient { client_id } => AdminOutcome::ForwardToVoice(
            ControlToVoiceEvent::UnmuteClient { client_id: client_id.clone() },
        ),
        UiToControlEvent::UnbanClient { client_id } => AdminOutcome::RecordUnban {
            client_id: client_id.clone(),
        },
    }
}

/// Removes the session carrying this id, if any, and names its endpoint.
fn remove_session_by_id(client_id: &String, state: &mut ClientState) -> (r: AdminOutcome)
    requires
        old(state).wf(),
    ensures
        final(state).wf(),
        session_removal_ok(client_id@, old(state)@, final(state)@, r),
{
    match state.find_by_session_id(client_id) {
        None => AdminOutcome::NoSuchSession,
        Some(i) => {
            let endpoint: u64 = state.get_entry(i).0;
            proof {
                assert(has_endpoint(state@, endpoint)) by {
                    assert(state@[i as int].0 == endpoint);
                }
            }
            match state.remove_client(endpoint) {
                Ok(()) => {
                    proof {
                        let j = choose|j: int|
                            0 <= j < old(state)@.len() && #[trigger] old(state)@[j].0 == endpoint
                                && final(state)@ == old(state)@.remove(j);
                        lemma_endpoint_key_unique(old(state)@, i as int, j);
                    }
                    AdminOutcome::SessionRemoved { endpoint }
                },
                Err(_) => unreached(),
            }
        },
    }
}

/// What the voice component must do with a forwarded intent: mute or
/// unmute the named session; lifecycle notifications carry no work on
/// this path and are only acknowledged.  The core fixes no further mute
/// semantics, so the action names the session and the caller carries it.
#[derive(Clone, Debug)]
pub enum VoiceAction {
    SetMuted { client_id: String, muted: bool },
    Acknowledge,
}

/// Decides an intent forwarded from the control component to the voice
/// component.
pub fn handle_control_event(event: &ControlToVoiceEvent) -> (a: VoiceAction)
    ensures
        event matches ControlToVoiceEvent::MuteClient { client_id } ==> (a matches
        VoiceAction::SetMuted { client_id: c, muted } && c@ == client_id@ && muted == true),
        event matches ControlToVoiceEvent::UnmuteClient { client_id } ==> (a matches
        VoiceAction::SetMuted { client_id: c, muted } && c@ == client_id@ && muted == false),
        (event is ClientConnected || event is ClientDisconnected) ==> a is Acknowledge,
{
    match event {
        ControlToVoiceEvent::ClientConnected { client_id: _ } => VoiceAction::Acknowledge,
        ControlToVoiceEvent::ClientDisconnected { client_id: _ } => VoiceAction::Acknowledge,
        ControlToVoiceEvent::MuteClient { client_id } => VoiceAction::SetMuted {
            client_id: client_id.clone(),
            muted: true,
        },
        ControlToVoiceEvent::UnmuteClient { client_id } => VoiceAction::SetMuted {
            client_id: client_id.clone(),
            muted: false,
        },
    }
}

/// Applies a lifecycle notification to the registry: a login success
/// registers the session under its endpoint if that endpoint is free and
/// known; a disconnect notification carries no registry work here — the
/// connection's own cleanup removed the entry; server-settings events are
/// not served on this path.
pub fn handle_connection_event(event: ConnectionEvent, state: &mut ClientState) -> (r: Result<
    (),
    VoiceServerError,
>)
    requires
        old(state).wf(),
    ensures
        final(state).wf(),
        event matches ConnectionEvent::LoginSuccess(c) ==> r is Ok && ((c.addr matches Some(a)
            && !has_endpoint(old(state)@, a)) ==> final(state)@ == old(state)@.push((c.addr->0, c)))
            && ((c.addr is None || (c.addr matches Some(a2) && has_endpoint(old(state)@, a2)))
            ==> final(state)@ == old(state)@),
        event matches ConnectionEvent::ClientDisconnect(id) ==> r is Ok && final(state)@ == old(state)@,
        event is ServerSettings ==> final(state)@ == old(state)@ && (r matches Err(e)
            && e is EventError),
{
    match event {
        ConnectionEvent::LoginSuccess(c) => {
            match c.addr {
                Some(a) => {
                    let _ = state.add_client(a, c);
                },
                None => {},
            }
            Ok(())
        },
        ConnectionEvent::ClientDisconnect(_) => Ok(()),
        ConnectionEvent::ServerSettings => Err(
            VoiceServerError::EventError(String::from_str("Server settings not implemented")),
        ),
    }
}

} // verus!
