//! The client registry: the single source of truth for connected sessions.
//!
//! Sessions are keyed by their reliable-channel endpoint, modeled as a plain
//! integer so that contracts stay exact; the transport layer converts its
//! socket addresses to these keys.  Entries are held in insertion order with
//! the invariant that no endpoint is keyed twice, and every mutation states
//! precisely how the new contents relate to the old.

use vstd::prelude::*;

verus! {

/// IFF transponder state, reported wholesale with each radio update.
#[derive(Clone, Copy, PartialEq, Eq, Structural, Debug)]
pub struct Iff {
    pub control: i32,
    pub mode1: i32,
    pub mode3: i32,
    pub mode4: bool,
    pub mic: i32,
    pub status: i32,
}

/// One radio of a client: frequencies in hertz, a modulation class, the
/// encryption setting, and whether the radio relays what it receives.
#[derive(Clone, Copy, PartialEq, Eq, Structural, Debug)]
pub struct Radio {
    pub enc: bool,
    pub enc_key: i32,
    pub freq: u64,
    pub standby_freq: u64,
    pub modulation: i32,
    pub radio_type: i32,
    pub sec_freq: u64,
    pub retransmit: bool,
    pub standby_channel: i32,
}

/// A client's radio state, replaced wholesale on every report.
#[derive(Clone, Debug)]
pub struct RadioInformation {
    pub radios: Vec<Radio>,
    pub unit: String,
    pub unit_id: i32,
    pub iff: Iff,
}

/// One session record: identity, coalition, endpoints and radio state.
/// `addr` is the reliable-channel endpoint; `voice_addr` is the voice
/// endpoint, learned from the first audio frame the session sends.
#[derive(Clone, Debug)]
pub struct Client {
    pub id: Option<String>,
    pub addr: Option<u64>,
    pub voice_addr: Option<u64>,
    pub name: String,
    pub coalition: i32,
    pub allow_record: bool,
    pub radio_information: Option<RadioInformation>,
}

impl Client {
    pub fn new(id: String, addr: u64) -> (r: Self)
        ensures
            r.id == Some(id),
            r.addr == Some(addr),
            r.voice_addr is None,
            r.name@ == Seq::<char>::empty(),
            r.coalition == 0,
            r.allow_record == false,
            r.radio_information is None,
    {
        Client {
            id: Some(id),
            addr: Some(addr),
            voice_addr: None,
            name: String::new(),
            coalition: 0,
            allow_record: false,
            radio_information: None,
        }
    }
}

/// How registry operations fail; the payload names the endpoint concerned.
#[derive(Clone, Copy, PartialEq, Eq, Structural, Debug)]
pub enum ClientStateError {
    ClientNotFound(u64),
    InvalidClientData(u64),
}

/// No endpoint keys two entries.
pub open spec fn endpoints_unique(s: Seq<(u64, Client)>) -> bool {
    forall|i: int, j: int| 0 <= i < j < s.len() ==> s[i].0 != s[j].0
}

/// Some entry is keyed by `addr`.
pub open spec fn has_endpoint(s: Seq<(u64, Client)>, addr: u64) -> bool {
    exists|i: int| 0 <= i < s.len() && s[i].0 == addr
}

/// The client carries this session id.
pub open spec fn client_has_id(c: Client, id: Seq<char>) -> bool {
    c.id matches Some(s) && s@ == id
}

/// Two session records carry the same session id.
pub open spec fn shares_session_id(a: Client, b: Client) -> bool {
    a.id matches Some(x) && (b.id matches Some(y) && x@ == y@)
}

/// No two live records carry the same session id.  This holds as long as
/// every inserted record's id is fresh; the laws below keep it across
/// every registry operation.  Freshness itself rests on the id mint,
/// whose randomness admits no such promise, so the invariant is stated
/// conditionally rather than enforced by refusing insertions.
pub open spec fn session_ids_unique(s: Seq<(u64, Client)>) -> bool {
    forall|i: int, j: int|
        0 <= i < j < s.len() ==> !shares_session_id(#[trigger] s[i].1, #[trigger] s[j].1)
}

/// Law: appending a record whose id collides with no live record keeps
/// session ids unique.
pub proof fn lemma_session_ids_unique_push(s: Seq<(u64, Client)>, entry: (u64, Client))
    requires
        session_ids_unique(s),
        forall|j: int| 0 <= j < s.len() ==> !shares_session_id(#[trigger] s[j].1, entry.1),
    ensures
        session_ids_unique(s.push(entry)),
{
    let s1 = s.push(entry);
    assert forall|i: int, j: int|
        0 <= i < j < s1.len() implies !shares_session_id(s1[i].1, s1[j].1) by {
        if j == s.len() {
            assert(s1[i].1 == s[i].1);
            assert(!shares_session_id(s[i].1, entry.1));
        } else {
            assert(s1[i].1 == s[i].1);
            assert(s1[j].1 == s[j].1);
        }
    }
}

/// Law: removing a record keeps session ids unique.
pub proof fn lemma_session_ids_unique_remove(s: Seq<(u64, Client)>, k: int)
    requires
        session_ids_unique(s),
        0 <= k < s.len(),
    ensures
        session_ids_unique(s.remove(k)),
{
    let s1 = s.remove(k);
    assert forall|i: int, j: int|
        0 <= i < j < s1.len() implies !shares_session_id(s1[i].1, s1[j].1) by {
        let i0 = if i < k { i } else { i + 1 };
        let j0 = if j < k { j } else { j + 1 };
        assert(s1[i] == s[i0]);
        assert(s1[j] == s[j0]);
    }
}

/// Law: replacing a record with one that carries the same id keeps
/// session ids unique — radio reports and a learned voice endpoint never
/// touch the id.
pub proof fn lemma_session_ids_unique_update(s: Seq<(u64, Client)>, k: int, entry: (u64, Client))
    requires
        session_ids_unique(s),
        0 <= k < s.len(),
        entry.1.id == s[k].1.id,
    ensures
        session_ids_unique(s.update(k, entry)),
{
    let s1 = s.update(k, entry);
    assert forall|i: int, j: int|
        0 <= i < j < s1.len() implies !shares_session_id(s1[i].1, s1[j].1) by {
        assert(!shares_session_id(s[i].1, s[j].1));
        if i != k {
            assert(s1[i].1 == s[i].1);
        }
        if j != k {
            assert(s1[j].1 == s[j].1);
        }
    }
}

/// Law: in a well-formed registry the entries keyed by one endpoint never
/// exceed one — any two entries with the same key are the same entry.
pub proof fn lemma_endpoint_key_unique(s: Seq<(u64, Client)>, i: int, j: int)
    requires
        endpoints_unique(s),
        0 <= i < s.len(),
        0 <= j < s.len(),
        s[i].0 == s[j].0,
    ensures
        i == j,
{
}

/// The concurrent client registry.  All critical sections are single
/// operations on the underlying store and are never held across I/O; the
/// transport wraps a whole `ClientState` in its lock.
pub struct ClientState {
    clients: Vec<(u64, Client)>,
}

impl View for ClientState {
    type V = Seq<(u64, Client)>;

    closed spec fn view(&self) -> Seq<(u64, Client)> {
        self.clients@
    }
}

impl ClientState {
    /// The registry invariant: endpoint keys are unique.
    pub open spec fn wf(&self) -> bool {
        endpoints_unique(self@)
    }

    pub fn new() -> (r: Self)
        ensures
            r@ == Seq::<(u64, Client)>::empty(),
            r.wf(),
    {
        ClientState { clients: Vec::new() }
    }

    pub fn len(&self) -> (n: usize)
        ensures
            n == self@.len(),
    {
        self.clients.len()
    }

    /// The index of the entry keyed by `addr`, if any.
    fn find_index(&self, addr: u64) -> (r: Option<usize>)
        ensures
            match r {
                Some(i) => i < self@.len() && self@[i as int].0 == addr,
                None => !has_endpoint(self@, addr),
            },
    {
        let n: usize = self.clients.len();
        let mut k: usize = 0;
        while k < n
            invariant
                n == self@.len(),
                k <= n,
                forall|j: int| 0 <= j < k ==> self@[j].0 != addr,
            decreases n - k,
        {
            if self.clients[k].0 == addr {
                return Some(k);
            }
            k = k + 1;
        }
        None
    }

    /// Adds a session under its endpoint; never silently overwrites.
    pub fn add_client(&mut self, addr: u64, client: Client) -> (r: Result<
        (),
        ClientStateError,
    >)
        requires
            old(self).wf(),
        ensures
            final(self).wf(),
            match r {
                Ok(()) => !has_endpoint(old(self)@, addr) && final(self)@ == old(self)@.push(
                    (addr, client),
                ),
                Err(e) => has_endpoint(old(self)@, addr) && final(self)@ == old(self)@ && e
                    == ClientStateError::InvalidClientData(addr),
            },
    {
        match self.find_index(addr) {
            Some(_) => Err(ClientStateError::InvalidClientData(addr)),
            None => {
                self.clients.push((addr, client));
                Ok(())
            },
        }
    }

    /// Removes the session keyed by `addr`; removing an absent endpoint
    /// fails with "not found" and leaves the registry unchanged.
    pub fn remove_client(&mut self, addr: u64) -> (r: Result<(), ClientStateError>)
        requires
            old(self).wf(),
        ensures
            final(self).wf(),
            match r {
                Ok(()) => exists|i: int|
                    0 <= i < old(self)@.len() && #[trigger] old(self)@[i].0 == addr && final(self)@ == old(self)@.remove(i),
                Err(e) => !has_endpoint(old(self)@, addr) && final(self)@ == old(self)@ && e
                    == ClientStateError::ClientNotFound(addr),
            },
    {
        match self.find_index(addr) {
            Some(i) => {
                self.clients.remove(i);
                proof {
                    let s = old(self)@;
                    assert forall|a: int, b: int|
                        0 <= a < b < self@.len() implies self@[a].0 != self@[b].0 by {
                        let a0 = if a < i as int { a } else { a + 1 };
                        let b0 = if b < i as int { b } else { b + 1 };
                        assert(self@[a] == s[a0]);
                        assert(self@[b] == s[b0]);
                    }
                }
                Ok(())
            },
            None => Err(ClientStateError::ClientNotFound(addr)),
        }
    }

    /// Replaces the radio state of the session keyed by `addr` wholesale;
    /// fails with "not found" on a disconnect race.
    pub fn update_radio_information(&mut self, addr: u64, radio_info: RadioInformation) -> (r:
        Result<(), ClientStateError>)
        requires
            old(self).wf(),
        ensures
            final(self).wf(),
            match r {
                Ok(()) => exists|i: int|
                    0 <= i < old(self)@.len() && #[trigger] old(self)@[i].0 == addr && final(self)@ == old(self)@.update(
                        i,
                        (
                            addr,
                            (Client {
                                radio_information: Some(radio_info),
                                ..old(self)@[i].1
                            }),
                        ),
                    ),
                Err(e) => !has_endpoint(old(self)@, addr) && final(self)@ == old(self)@ && e
                    == ClientStateError::ClientNotFound(addr),
            },
    {
        match self.find_index(addr) {
            Some(i) => {
                self.clients[i].1.radio_information = Some(radio_info);
                proof {
                    assert forall|a: int, b: int|
                        0 <= a < b < self@.len() implies self@[a].0 != self@[b].0 by {
                        assert(self@[a].0 == old(self)@[a].0);
                        assert(self@[b].0 == old(self)@[b].0);
                    }
                }
                Ok(())
            },
            None => Err(ClientStateError::ClientNotFound(addr)),
        }
    }

    /// Looks up the session keyed by `addr`.
    pub fn get_client(&self, addr: u64) -> (r: Result<&Client, ClientStateError>)
        ensures
            match r {
                Ok(c) => exists|i: int|
                    0 <= i < self@.len() && #[trigger] self@[i].0 == addr && self@[i].1 == *c,
                Err(e) => !has_endpoint(self@, addr) && e == ClientStateError::ClientNotFound(
                    addr,
                ),
            },
    {
        match self.find_index(addr) {
            Some(i) => Ok(&self.clients[i].1),
            None => Err(ClientStateError::ClientNotFound(addr)),
        }
    }

    /// Direct access to one entry of the snapshot, for fan-out iteration.
    pub fn get_entry(&self, i: usize) -> (e: &(u64, Client))
        requires
            i < self@.len(),
        ensures
            *e == self@[i as int],
    {
        &self.clients[i]
    }

    /// The index of the session carrying this id, if any.
    pub fn find_by_session_id(&self, id: &String) -> (r: Option<usize>)
        ensures
            match r {
                Some(i) => i < self@.len() && client_has_id(self@[i as int].1, id@),
                None => forall|j: int|
                    0 <= j < self@.len() ==> !client_has_id(#[trigger] self@[j].1, id@),
            },
    {
        let n: usize = self.clients.len();
        let mut k: usize = 0;
        while k < n
            invariant
                n == self@.len(),
                k <= n,
                forall|j: int| 0 <= j < k ==> !client_has_id(#[trigger] self@[j].1, id@),
            decreases n - k,
        {
            let found: bool = match &self.clients[k].1.id {
                Some(s) => *s == *id,
                None => false,
            };
            if found {
                return Some(k);
            }
            k = k + 1;
        }
        None
    }

    /// Records the voice endpoint a session sends from, the first time it
    /// is seen; later frames never change it.
    pub fn learn_voice_addr(&mut self, i: usize, voice: u64)
        requires
            old(self).wf(),
            i < old(self)@.len(),
        ensures
            final(self).wf(),
            old(self)@[i as int].1.voice_addr is Some ==> final(self)@ == old(self)@,
            old(self)@[i as int].1.voice_addr is None ==> final(self)@ == old(self)@.update(
                i as int,
                (
                    old(self)@[i as int].0,
                    (Client { voice_addr: Some(voice), ..old(self)@[i as int].1 }),
                ),
            ),
    {
        if self.clients[i].1.voice_addr.is_none() {
            self.clients[i].1.voice_addr = Some(voice);
            proof {
                assert forall|a: int, b: int|
                    0 <= a < b < self@.len() implies self@[a].0 != self@[b].0 by {
                    assert(self@[a].0 == old(self)@[a].0);
                    assert(self@[b].0 == old(self)@[b].0);
                }
            }
        }
    }
}

/// Read-mostly holder of the current configuration snapshot.
pub struct OptionsState {
    pub options: crate::config::ServerOptions,
}

impl OptionsState {
    pub fn new(options: crate::config::ServerOptions) -> (r: Self)
        ensures
            r.options == options,
    {
        OptionsState { options }
    }
}

/// Administrative run state.
pub struct AdminState {
    pub running: bool,
}

impl AdminState {
    pub fn new() -> (r: Self)
        ensures
            r.running == false,
    {
        AdminState { running: false }
    }
}

} // verus!
