//! The peer manager's state and decisions.
//!
//! The peer manager counts the references to each peer, asks the connection manager for a
//! connection to a referenced peer, tries the peer's other endpoints when its connection keeps
//! failing, and tells its subscribers when a peer connects or disconnects.  Peers that connect
//! to us before anyone here asked for them are kept aside as unreferenced until they are.
//! The decisions are made here; sending requests to the connection manager, running the
//! manager's thread and delivering notifications are left to the caller.
use vstd::prelude::*;
use vstd::string::StringExecFns;

use crate::collections::{distinct_keys, distinct_strings, entries_map, lemma_entries_map_at, RefMap, StringMap};
use crate::connection_manager::error::{connection_manager_error_text, ConnectionManagerError};
use crate::connection_manager::new_connection_id;

pub mod peer_map;

use self::peer_map::{
    copy_strings, strings_view, with_owner, without_endpoints, PeerMap, PeerMetadata, PeerStatus, PeerView,
};

verus! {

/// How many times an endpoint is retried before the peer's other endpoints are tried.
pub const DEFAULT_MAXIMUM_RETRY_ATTEMPTS: u64 = 5;

/// How often, in seconds, pending peers are looked at for a retry.
pub const DEFAULT_PACEMAKER_INTERVAL: u64 = 10;

/// The longest delay, in seconds, between retries of a peer's endpoints.
pub const DEFAULT_MAXIMUM_RETRY_FREQUENCY: u64 = 300;

/// What the peer manager tells its subscribers.
#[derive(Debug, PartialEq, Clone)]
pub enum PeerManagerNotification {
    Connected { peer: String },
    Disconnected { peer: String },
}

/// Why a reference to a peer could not be added.
#[derive(Debug, PartialEq)]
pub enum PeerRefAddError {
    InternalError(String),
    ReceiveError(String),
    AddError(String),
}

/// Why a reference to a peer could not be removed.
#[derive(Debug, PartialEq)]
pub enum PeerRefRemoveError {
    InternalError(String),
    ReceiveError(String),
    RemoveError(String),
}

/// Why a peer of unknown identity could not be added.
#[derive(Debug, PartialEq)]
pub enum PeerUnknownAddError {
    InternalError(String),
    ReceiveError(String),
    AddError(String),
}

/// Why the peer manager could not do what was asked.
#[derive(Debug, PartialEq)]
pub enum PeerManagerError {
    StartUpError(String),
    SendMessageError(String),
}

/// Why the peers could not be listed.
#[derive(Debug, PartialEq)]
pub enum PeerListError {
    InternalError(String),
    ReceiveError(String),
}

/// Why the connection ids could not be listed.
#[derive(Debug, PartialEq)]
pub enum PeerConnectionIdError {
    InternalError(String),
    ReceiveError(String),
}

/// Why a peer or connection could not be looked up.
#[derive(Debug, PartialEq)]
pub struct PeerLookupError(pub String);

/// A reference to a peer, handed to whoever asked for the peer.
#[derive(Debug, PartialEq)]
pub struct PeerRef {
    peer_id: String,
}

impl PeerRef {
    /// The referenced peer.
    pub closed spec fn spec_peer_id(&self) -> Seq<char> {
        self.peer_id@
    }

    /// A reference to `peer_id`.
    pub fn new(peer_id: String) -> (r: Self)
        ensures
            r.spec_peer_id() == peer_id@,
    {
        PeerRef { peer_id }
    }

    /// The id of the referenced peer.
    pub fn peer_id(&self) -> (s: &str)
        ensures
            s@ == self.spec_peer_id(),
    {
        self.peer_id.as_str()
    }
}

/// A peer connected to us that no one here asked for yet.
#[derive(Debug, PartialEq)]
pub struct UnreferencedPeer {
    pub endpoint: String,
    pub connection_id: String,
}

/// An unreferenced peer as the contracts speak of it: its endpoint and connection id.
pub open spec fn unreferenced_view(u: UnreferencedPeer) -> (Seq<char>, Seq<char>) {
    (u.endpoint@, u.connection_id@)
}

/// What adding a reference to a peer comes to.
pub enum AddPeer {
    /// The reference is ready.
    Ready(PeerRef),
    /// A connection must be requested: for each endpoint in turn, until one request goes
    /// through, under `connection_id`; `add_peer_connecting` then records the peer.
    Connect { peer_id: String, connection_id: String, endpoints: Vec<String> },
}

/// What removing a reference to a peer comes to.
pub enum RemovePeer {
    /// Nothing more to do.
    Done(Result<(), PeerRefRemoveError>),
    /// The connection to this endpoint must be removed; `remove_connection_outcome` turns
    /// the connection manager's answer into the result.
    RemoveConnection(String),
}

/// What to do when a peer's connection comes up: connections to remove (by endpoint), in
/// order, and what to tell subscribers.
pub struct ConnectedActions {
    pub remove_connections: Vec<String>,
    pub notification: Option<PeerManagerNotification>,
}

/// The retry delay after one more failed attempt: doubled, but at most the default maximum.
pub open spec fn next_peer_retry(retry_frequency: u64) -> u64 {
    if 2 * retry_frequency < DEFAULT_MAXIMUM_RETRY_FREQUENCY {
        (2 * retry_frequency) as u64
    } else {
        DEFAULT_MAXIMUM_RETRY_FREQUENCY
    }
}

/// The retry delay of a peer never goes past the default maximum, and never shrinks while it
/// is within it.
pub proof fn lemma_peer_retry_bounded(retry_frequency: u64)
    ensures
        next_peer_retry(retry_frequency) <= DEFAULT_MAXIMUM_RETRY_FREQUENCY,
        retry_frequency <= DEFAULT_MAXIMUM_RETRY_FREQUENCY ==> retry_frequency <= next_peer_retry(retry_frequency),
{
}

fn next_retry(retry_frequency: u64) -> (r: u64)
    ensures
        r == next_peer_retry(retry_frequency),
{
    if retry_frequency <= u64::MAX / 2 && retry_frequency * 2 < DEFAULT_MAXIMUM_RETRY_FREQUENCY {
        retry_frequency * 2
    } else {
        DEFAULT_MAXIMUM_RETRY_FREQUENCY
    }
}

/// `n` tells that peer `peer` connected.
pub open spec fn connected_notice(n: PeerManagerNotification, peer: Seq<char>) -> bool {
    n matches PeerManagerNotification::Connected { peer: p } && p@ == peer
}

/// `n` tells that peer `peer` disconnected.
pub open spec fn disconnected_notice(n: PeerManagerNotification, peer: Seq<char>) -> bool {
    n matches PeerManagerNotification::Disconnected { peer: p } && p@ == peer
}

/// The endpoints of `endpoints` other than `active`, in order.
pub open spec fn other_endpoints(endpoints: Seq<Seq<char>>, active: Seq<char>) -> Seq<Seq<char>> {
    endpoints.filter(|e: Seq<char>| e != active)
}

/// The endpoint a new peer is recorded on, given the outcomes of its connection requests in
/// order (`true` for a request that went through): the first endpoint whose request went
/// through, or the first endpoint when none did.
pub open spec fn active_endpoint_of(endpoints: Seq<String>, outcomes: Seq<bool>) -> String {
    if exists|i: int| 0 <= i < outcomes.len() && #[trigger] outcomes[i] {
        endpoints[choose|i: int|
            0 <= i < outcomes.len() && #[trigger] outcomes[i] && forall|j: int| 0 <= j < i ==> !#[trigger] outcomes[j]]
    } else {
        endpoints[0]
    }
}

/// The endpoint a new peer is recorded on: see `active_endpoint_of`.
pub fn active_endpoint(endpoints: &Vec<String>, outcomes: &Vec<bool>) -> (r: String)
    requires
        endpoints@.len() > 0,
        outcomes@.len() <= endpoints@.len(),
    ensures
        r@ == active_endpoint_of(endpoints@, outcomes@)@,
{
    let mut i: usize = 0;
    while i < outcomes.len()
        invariant
            i <= outcomes@.len(),
            outcomes@.len() <= endpoints@.len(),
            forall|j: int| 0 <= j < i ==> !#[trigger] outcomes@[j],
        decreases outcomes@.len() - i,
    {
        if outcomes[i] {
            proof {
                let w = choose|w: int|
                    0 <= w < outcomes@.len() && #[trigger] outcomes@[w] && forall|j: int| 0 <= j < w ==> !#[trigger] outcomes@[j];
                assert(0 <= i < outcomes@.len() && outcomes@[i as int] && forall|j: int| 0 <= j < i ==> !#[trigger] outcomes@[j]);
                if w < i {
                    assert(!outcomes@[w]);
                } else if w > i {
                    assert(!outcomes@[i as int]);
                }
            }
            return endpoints[i].clone();
        }
        i = i + 1;
    }
    endpoints[0].clone()
}

/// The peers, the unreferenced peers and the references of a peer manager.
pub struct PeerManagerState {
    peers: PeerMap,
    unreferenced_peers: StringMap<UnreferencedPeer>,
    ref_map: RefMap,
    max_retry_attempts: u64,
}

impl PeerManagerState {
    /// The referenced peers, by peer id.
    pub closed spec fn peers(&self) -> Map<Seq<char>, PeerView> {
        self.peers.peers()
    }

    /// The peer each known endpoint belongs to.
    pub closed spec fn owners(&self) -> Map<Seq<char>, Seq<char>> {
        self.peers.owners()
    }

    /// The unreferenced peers, by peer id: endpoint and connection id.
    pub closed spec fn unreferenced(&self) -> Map<Seq<char>, (Seq<char>, Seq<char>)> {
        self.unreferenced_peers@.map_values(|u: UnreferencedPeer| unreferenced_view(u))
    }

    /// How many references each peer has.
    pub closed spec fn references(&self) -> Map<Seq<char>, u64> {
        self.ref_map.counts()
    }

    /// How many failed attempts on the active endpoint make the other endpoints be tried.
    pub closed spec fn spec_max_retry_attempts(&self) -> u64 {
        self.max_retry_attempts
    }

    /// The peer that endpoint `endpoint` belongs to, if it is referenced.
    pub open spec fn peer_at(&self, endpoint: Seq<char>) -> Option<PeerView> {
        if self.owners().contains_key(endpoint) && self.peers().contains_key(self.owners()[endpoint]) {
            Some(self.peers()[self.owners()[endpoint]])
        } else {
            None
        }
    }

    /// No peers and no references.
    pub fn new(max_retry_attempts: Option<u64>) -> (s: Self)
        ensures
            s.peers() == Map::<Seq<char>, PeerView>::empty(),
            s.owners() == Map::<Seq<char>, Seq<char>>::empty(),
            s.unreferenced() == Map::<Seq<char>, (Seq<char>, Seq<char>)>::empty(),
            s.references() == Map::<Seq<char>, u64>::empty(),
            s.spec_max_retry_attempts() == match max_retry_attempts {
                Some(n) => n,
                None => DEFAULT_MAXIMUM_RETRY_ATTEMPTS,
            },
    {
        let s = PeerManagerState {
            peers: PeerMap::new(),
            unreferenced_peers: StringMap::new(),
            ref_map: RefMap::new(),
            max_retry_attempts: match max_retry_attempts {
                Some(n) => n,
                None => DEFAULT_MAXIMUM_RETRY_ATTEMPTS,
            },
        };
        assert(s.unreferenced() =~= Map::<Seq<char>, (Seq<char>, Seq<char>)>::empty());
        s
    }

    /// How many references peer `peer_id` has, if any.
    pub fn reference_count(&self, peer_id: &String) -> (c: Option<u64>)
        ensures
            c == (if self.references().contains_key(peer_id@) {
                Some(self.references()[peer_id@])
            } else {
                None::<u64>
            }),
    {
        self.ref_map.count(peer_id)
    }

    /// Adds a reference to peer `peer_id`, reachable at `endpoints`, at time `now`.
    ///
    /// A peer already referenced just gets one more reference.  A peer that connected to us
    /// unreferenced becomes a connected peer, on the endpoint and connection it came in on.
    /// Otherwise a connection is to be requested under a fresh connection id; with no
    /// endpoints, that is an error (the reference stays counted).
    pub fn add_peer(&mut self, peer_id: String, endpoints: Vec<String>, now: u64) -> (r: Result<AddPeer, PeerRefAddError>)
        requires
            old(self).references().contains_key(peer_id@) ==> old(self).references()[peer_id@] < u64::MAX,
        ensures
            final(self).spec_max_retry_attempts() == old(self).spec_max_retry_attempts(),
            final(self).references() == old(self).references().insert(
                peer_id@,
                if old(self).references().contains_key(peer_id@) {
                    (old(self).references()[peer_id@] + 1) as u64
                } else {
                    1u64
                },
            ),
            old(self).references().contains_key(peer_id@) ==> (r matches Ok(AddPeer::Ready(p)) && p.spec_peer_id()
                == peer_id@) && final(self).peers() == old(self).peers() && final(self).owners() == old(self).owners()
                && final(self).unreferenced() == old(self).unreferenced(),
            !old(self).references().contains_key(peer_id@) && old(self).unreferenced().contains_key(peer_id@) ==> ({
                let (endpoint, connection_id) = old(self).unreferenced()[peer_id@];
                &&& r matches Ok(AddPeer::Ready(p)) && p.spec_peer_id() == peer_id@
                &&& final(self).unreferenced() == old(self).unreferenced().remove(peer_id@)
                &&& final(self).peers() == old(self).peers().insert(
                    peer_id@,
                    PeerView {
                        id: peer_id@,
                        connection_id,
                        endpoints: strings_view(endpoints@),
                        active_endpoint: endpoint,
                        status: PeerStatus::Connected,
                        last_connection_attempt: now,
                        retry_frequency: peer_map::INITIAL_RETRY_FREQUENCY,
                    },
                )
                &&& final(self).owners() == with_owner(old(self).owners(), strings_view(endpoints@), peer_id@)
            }),
            !old(self).references().contains_key(peer_id@) && !old(self).unreferenced().contains_key(peer_id@) ==> ({
                &&& final(self).peers() == old(self).peers()
                &&& final(self).owners() == old(self).owners()
                &&& final(self).unreferenced() == old(self).unreferenced()
                &&& endpoints@.len() == 0 ==> (r matches Err(PeerRefAddError::AddError(s)) && s@
                    == "No endpoints provided for peer "@ + peer_id@)
                &&& endpoints@.len() > 0 ==> (r matches Ok(AddPeer::Connect { peer_id: p, connection_id: c, endpoints: e })
                    && p@ == peer_id@ && c@.len() == 36 && strings_view(e@) == strings_view(endpoints@))
            }),
    {
        let count = self.ref_map.add_ref(peer_id.clone());
        if count > 1 {
            return Ok(AddPeer::Ready(PeerRef::new(peer_id)));
        }
        let ghost u = self.unreferenced();
        let ghost raw = self.unreferenced_peers@;
        match self.unreferenced_peers.remove(&peer_id) {
            Some(UnreferencedPeer { connection_id, endpoint }) => {
                assert(self.unreferenced() =~= u.remove(peer_id@));
                self.peers.insert(peer_id.clone(), connection_id, endpoints, endpoint, PeerStatus::Connected, now);
                return Ok(AddPeer::Ready(PeerRef::new(peer_id)));
            },
            None => {
                assert(self.unreferenced() =~= u);
            },
        }
        if endpoints.len() == 0 {
            let mut msg = "No endpoints provided for peer ".to_owned();
            msg.append(peer_id.as_str());
            return Err(PeerRefAddError::AddError(msg));
        }
        let connection_id = new_connection_id();
        Ok(AddPeer::Connect { peer_id, connection_id, endpoints })
    }

    /// Records peer `peer_id` as pending on `active_endpoint` (the first endpoint whose
    /// connection request went through, or the first endpoint if none did), at time `now`.
    pub fn add_peer_connecting(
        &mut self,
        peer_id: String,
        connection_id: String,
        endpoints: Vec<String>,
        active_endpoint: String,
        now: u64,
    ) -> (r: PeerRef)
        ensures
            r.spec_peer_id() == peer_id@,
            final(self).spec_max_retry_attempts() == old(self).spec_max_retry_attempts(),
            final(self).references() == old(self).references(),
            final(self).unreferenced() == old(self).unreferenced(),
            final(self).peers() == old(self).peers().insert(
                peer_id@,
                PeerView {
                    id: peer_id@,
                    connection_id: connection_id@,
                    endpoints: strings_view(endpoints@),
                    active_endpoint: active_endpoint@,
                    status: PeerStatus::Pending,
                    last_connection_attempt: now,
                    retry_frequency: peer_map::INITIAL_RETRY_FREQUENCY,
                },
            ),
            final(self).owners() == with_owner(old(self).owners(), strings_view(endpoints@), peer_id@),
    {
        self.peers.insert(peer_id.clone(), connection_id, endpoints, active_endpoint, PeerStatus::Pending, now);
        PeerRef::new(peer_id)
    }

    /// Removes a reference to peer `peer_id`.
    ///
    /// The peer is dropped from the unreferenced peers.  When its last reference goes, it is
    /// dropped from the peers as well, and its connection is to be removed unless it was
    /// still pending.
    pub fn remove_peer(&mut self, peer_id: String) -> (r: RemovePeer)
        ensures
            final(self).spec_max_retry_attempts() == old(self).spec_max_retry_attempts(),
            final(self).unreferenced() == old(self).unreferenced().remove(peer_id@),
            !(old(self).references().contains_key(peer_id@) && old(self).references()[peer_id@] == 1) ==> ({
                &&& r matches RemovePeer::Done(Ok(()))
                &&& final(self).peers() == old(self).peers()
                &&& final(self).owners() == old(self).owners()
                &&& !old(self).references().contains_key(peer_id@) ==> final(self).references()
                    == old(self).references()
                &&& old(self).references().contains_key(peer_id@) ==> final(self).references()
                    == old(self).references().insert(peer_id@, (old(self).references()[peer_id@] - 1) as u64)
            }),
            old(self).references().contains_key(peer_id@) && old(self).references()[peer_id@] == 1 ==> ({
                &&& final(self).references() == old(self).references().remove(peer_id@)
                &&& final(self).peers() == old(self).peers().remove(peer_id@)
                &&& !old(self).peers().contains_key(peer_id@) ==> (r matches RemovePeer::Done(
                    Err(PeerRefRemoveError::RemoveError(s)),
                ) && s@ == "Peer "@ + peer_id@ + " has already been removed from the peer map"@)
                    && final(self).owners() == old(self).owners()
                &&& old(self).peers().contains_key(peer_id@) ==> final(self).owners() == without_endpoints(
                    old(self).owners(),
                    old(self).peers()[peer_id@].endpoints,
                ) && (old(self).peers()[peer_id@].status == PeerStatus::Pending ==> r matches RemovePeer::Done(Ok(())))
                    && (old(self).peers()[peer_id@].status != PeerStatus::Pending ==> (r matches RemovePeer::RemoveConnection(
                    e,
                ) && e@ == old(self).peers()[peer_id@].active_endpoint))
            }),
    {
        let ghost u = self.unreferenced();
        let _ = self.unreferenced_peers.remove(&peer_id);
        assert(self.unreferenced() =~= u.remove(peer_id@));
        match self.ref_map.remove_ref(peer_id.as_str()) {
            None => RemovePeer::Done(Ok(())),
            Some(removed) => match self.peers.remove(&removed) {
                None => {
                    let mut msg = "Peer ".to_owned();
                    msg.append(peer_id.as_str());
                    msg.append(" has already been removed from the peer map");
                    RemovePeer::Done(Err(PeerRefRemoveError::RemoveError(msg)))
                },
                Some(meta) => {
                    if meta.status == PeerStatus::Pending {
                        RemovePeer::Done(Ok(()))
                    } else {
                        RemovePeer::RemoveConnection(meta.active_endpoint)
                    }
                },
            },
        }
    }

    /// The peers, as the caller of `list_peers` sees them: their ids.
    pub fn peer_ids(&self) -> (r: Vec<String>)
        ensures
            forall|k: Seq<char>| self.peers().contains_key(k) <==> exists|i: int| 0 <= i < r@.len() && #[trigger] r@[i]@ == k,
            distinct_strings(r@),
    {
        self.peers.peer_ids()
    }

    /// The peers with their connection ids, each peer once.
    pub fn connection_ids(&self) -> (r: Vec<(String, String)>)
        ensures
            forall|i: int|
                0 <= i < r@.len() ==> self.peers().contains_key(#[trigger] r@[i].0@) && r@[i].1@
                    == self.peers()[r@[i].0@].connection_id,
            forall|k: Seq<char>|
                self.peers().contains_key(k) <==> exists|i: int| 0 <= i < r@.len() && #[trigger] r@[i].0@ == k,
            forall|i: int, j: int|
                0 <= i < r@.len() && 0 <= j < r@.len() && i != j ==> #[trigger] r@[i].0@ != #[trigger] r@[j].0@,
    {
        let ids = self.peer_ids();
        let mut r: Vec<(String, String)> = Vec::new();
        let mut i: usize = 0;
        while i < ids.len()
            invariant
                forall|k: Seq<char>|
                    self.peers().contains_key(k) <==> exists|j: int| 0 <= j < ids@.len() && #[trigger] ids@[j]@ == k,
                distinct_strings(ids@),
                i <= ids@.len(),
                r@.len() == i,
                forall|j: int|
                    0 <= j < i ==> #[trigger] r@[j].0@ == ids@[j]@ && self.peers().contains_key(ids@[j]@) && r@[j].1@
                        == self.peers()[ids@[j]@].connection_id,
            decreases ids@.len() - i,
        {
            let peer_id = ids[i].clone();
            assert(self.peers().contains_key(ids@[i as int]@));
            let c = match self.connection_id_of(&peer_id) {
                Some(c) => c,
                None => {
                    assert(false);
                    String::new()
                },
            };
            let ghost old_r = r@;
            r.push((peer_id, c));
            assert forall|j: int| 0 <= j < i + 1 implies #[trigger] r@[j].0@ == ids@[j]@ && self.peers().contains_key(
                ids@[j]@,
            ) && r@[j].1@ == self.peers()[ids@[j]@].connection_id by {
                if j < i {
                    assert(r@[j] == old_r[j]);
                }
            }
            i = i + 1;
        }
        proof {
            assert forall|k: Seq<char>|
                self.peers().contains_key(k) implies exists|i: int| 0 <= i < r@.len() && #[trigger] r@[i].0@ == k by {
                let j = choose|j: int| 0 <= j < ids@.len() && #[trigger] ids@[j]@ == k;
                assert(r@[j].0@ == k);
            }
            assert forall|i: int, j: int|
                0 <= i < r@.len() && 0 <= j < r@.len() && i != j implies #[trigger] r@[i].0@ != #[trigger] r@[j].0@ by {
                assert(r@[i].0@ == ids@[i]@);
                assert(r@[j].0@ == ids@[j]@);
            }
        }
        r
    }

    /// The ids of the unreferenced peers.
    pub fn unreferenced_peer_ids(&self) -> (r: Vec<String>)
        ensures
            forall|k: Seq<char>|
                self.unreferenced().contains_key(k) <==> exists|i: int| 0 <= i < r@.len() && #[trigger] r@[i]@ == k,
            distinct_strings(r@),
    {
        self.unreferenced_peers.keys()
    }

    /// The connection id of peer `peer_id`: that of the referenced peer, else that of the
    /// unreferenced one, if any.
    pub fn connection_id_of(&self, peer_id: &String) -> (r: Option<String>)
        ensures
            self.peers().contains_key(peer_id@) ==> (r matches Some(c) && c@ == self.peers()[peer_id@].connection_id),
            !self.peers().contains_key(peer_id@) && self.unreferenced().contains_key(peer_id@) ==> (r matches Some(c)
                && c@ == self.unreferenced()[peer_id@].1),
            !self.peers().contains_key(peer_id@) && !self.unreferenced().contains_key(peer_id@) ==> r is None,
    {
        match self.peers.get_by_peer_id(peer_id) {
            Some(meta) => Some(meta.connection_id.clone()),
            None => match self.unreferenced_peers.get(peer_id) {
                Some(u) => Some(u.connection_id.clone()),
                None => None,
            },
        }
    }

    /// The peer on connection `connection_id`: a referenced one, else an unreferenced one, if
    /// any.
    pub fn peer_id_of(&self, connection_id: &String) -> (r: Option<String>)
        ensures
            match r {
                Some(p) => (self.peers().contains_key(p@) && self.peers()[p@].connection_id == connection_id@) || (
                self.unreferenced().contains_key(p@) && self.unreferenced()[p@].1 == connection_id@),
                None => (forall|k: Seq<char>|
                    #[trigger] self.peers().contains_key(k) ==> self.peers()[k].connection_id != connection_id@) && (
                forall|k: Seq<char>|
                    #[trigger] self.unreferenced().contains_key(k) ==> self.unreferenced()[k].1 != connection_id@),
            },
    {
        match self.peers.get_by_connection_id(connection_id) {
            Some(meta) => Some(meta.id.clone()),
            None => {
                let n = self.unreferenced_peers.len();
                let ghost entries = self.unreferenced_peers.entries();
                for i in 0..n
                    invariant
                        n == entries.len(),
                        entries == self.unreferenced_peers.entries(),
                        distinct_keys(entries),
                        self.unreferenced_peers@ == entries_map(entries),
                        forall|j: int| 0 <= j < i ==> #[trigger] entries[j].1.connection_id@ != connection_id@,
                {
                    proof {
                        lemma_entries_map_at(entries, i as int);
                    }
                    if self.unreferenced_peers.value_at(i).connection_id == *connection_id {
                        return Some(self.unreferenced_peers.key_at(i).clone());
                    }
                }
                proof {
                    assert forall|k: Seq<char>| #[trigger] self.unreferenced().contains_key(k) implies self.unreferenced()[k].1
                        != connection_id@ by {
                        let j = choose|j: int| 0 <= j < entries.len() && #[trigger] entries[j].0@ == k;
                        lemma_entries_map_at(entries, j);
                    }
                }
                None
            },
        }
    }
}

impl PeerManagerState {
    /// The connection to `endpoint` was lost: its peer is marked disconnected (after one
    /// attempt) and subscribers are told.
    pub fn on_disconnected(&mut self, endpoint: &String) -> (r: Option<PeerManagerNotification>)
        ensures
            final(self).spec_max_retry_attempts() == old(self).spec_max_retry_attempts(),
            final(self).references() == old(self).references(),
            final(self).unreferenced() == old(self).unreferenced(),
            match old(self).peer_at(endpoint@) {
                None => r is None && final(self).peers() == old(self).peers() && final(self).owners() == old(self).owners(),
                Some(p) => (r matches Some(n) && disconnected_notice(n, p.id)) && final(self).peers() == old(self).peers().insert(
                    p.id,
                    PeerView { status: PeerStatus::Disconnected { retry_attempts: 1 }, ..p },
                ) && final(self).owners() == with_owner(old(self).owners(), p.endpoints, p.id),
            },
    {
        let mut meta = match self.peers.get_peer_from_endpoint(endpoint) {
            Some(m) => m.clone(),
            None => {
                return None;
            },
        };
        let notification = PeerManagerNotification::Disconnected { peer: meta.id.clone() };
        meta.status = PeerStatus::Disconnected { retry_attempts: 1 };
        let _ = self.peers.update_peer(meta);
        Some(notification)
    }

    /// A reconnection attempt to `endpoint` failed, the `attempts`-th in a row.  Once the
    /// attempts reach the limit, the peer is marked disconnected with that many attempts and
    /// its other endpoints are to be tried, in order, under its connection id (the result).
    pub fn on_non_fatal_error(&mut self, endpoint: &String, attempts: u64) -> (r: Option<(Vec<String>, String)>)
        ensures
            final(self).spec_max_retry_attempts() == old(self).spec_max_retry_attempts(),
            final(self).references() == old(self).references(),
            final(self).unreferenced() == old(self).unreferenced(),
            match old(self).peer_at(endpoint@) {
                Some(p) if attempts >= old(self).spec_max_retry_attempts() => (r matches Some((others, c)) && strings_view(
                    others@,
                ) == other_endpoints(p.endpoints, p.active_endpoint) && c@ == p.connection_id) && final(self).peers()
                    == old(self).peers().insert(
                    p.id,
                    PeerView { status: PeerStatus::Disconnected { retry_attempts: attempts }, ..p },
                ) && final(self).owners() == with_owner(old(self).owners(), p.endpoints, p.id),
                _ => r is None && final(self).peers() == old(self).peers() && final(self).owners() == old(self).owners(),
            },
    {
        let mut meta = match self.peers.get_peer_from_endpoint(endpoint) {
            Some(m) => m.clone(),
            None => {
                return None;
            },
        };
        if attempts < self.max_retry_attempts {
            return None;
        }
        let mut others: Vec<String> = Vec::new();
        let ghost eps = strings_view(meta.endpoints@);
        let ghost active = meta.active_endpoint@;
        for i in 0..meta.endpoints.len()
            invariant
                eps == strings_view(meta.endpoints@),
                active == meta.active_endpoint@,
                strings_view(others@) == other_endpoints(eps.take(i as int), active),
        {
            proof {
                reveal(Seq::filter);
                assert(eps.take(i + 1).drop_last() =~= eps.take(i as int));
            }
            if meta.endpoints[i] != meta.active_endpoint {
                let ghost before = others@;
                others.push(meta.endpoints[i].clone());
                assert(strings_view(others@) =~= strings_view(before).push(eps[i as int]));
            }
        }
        assert(eps.take(meta.endpoints@.len() as int) =~= eps);
        let connection_id = meta.connection_id.clone();
        meta.status = PeerStatus::Disconnected { retry_attempts: attempts };
        let _ = self.peers.update_peer(meta);
        Some((others, connection_id))
    }

    /// An inbound connection from `endpoint`, on `connection_id`, was authorized as
    /// `identity`.
    ///
    /// For a referenced peer the new connection replaces the old one: the peer is connected
    /// on it, the connection on the old active endpoint is to be removed (the result's first
    /// part) and subscribers are told the peer connected.  Any other peer is kept as
    /// unreferenced.
    pub fn on_inbound_connection(&mut self, endpoint: String, connection_id: String, identity: String) -> (r: Option<
        (String, PeerManagerNotification),
    >)
        ensures
            final(self).spec_max_retry_attempts() == old(self).spec_max_retry_attempts(),
            final(self).references() == old(self).references(),
            old(self).peers().contains_key(identity@) ==> ({
                let p = old(self).peers()[identity@];
                &&& r matches Some((old_endpoint, n)) && old_endpoint@ == p.active_endpoint && connected_notice(n, identity@)
                &&& final(self).peers() == old(self).peers().insert(
                    identity@,
                    PeerView {
                        status: PeerStatus::Connected,
                        connection_id: connection_id@,
                        active_endpoint: endpoint@,
                        ..p
                    },
                )
                &&& final(self).owners() == with_owner(old(self).owners(), p.endpoints, identity@)
                &&& final(self).unreferenced() == old(self).unreferenced()
            }),
            !old(self).peers().contains_key(identity@) ==> r is None && final(self).peers() == old(self).peers()
                && final(self).owners() == old(self).owners() && final(self).unreferenced()
                == old(self).unreferenced().insert(identity@, (endpoint@, connection_id@)),
    {
        match self.peers.get_by_peer_id(&identity) {
            Some(m) => {
                let mut meta = m.clone();
                meta.status = PeerStatus::Connected;
                meta.connection_id = connection_id;
                let old_endpoint = meta.active_endpoint.clone();
                let notification = PeerManagerNotification::Connected { peer: meta.id.clone() };
                meta.active_endpoint = endpoint;
                let _ = self.peers.update_peer(meta);
                Some((old_endpoint, notification))
            },
            None => {
                let ghost u = self.unreferenced();
                let ghost v = (endpoint@, connection_id@);
                let _ = self.unreferenced_peers.insert(identity, UnreferencedPeer { connection_id, endpoint });
                assert(self.unreferenced() =~= u.insert(identity@, v));
                None
            },
        }
    }

    /// An outbound connection to `endpoint`, on `connection_id`, was authorized as
    /// `identity`, at time `now`.
    ///
    /// For a peer already connected, subscribers are told again.  For a pending or
    /// disconnected peer the identity must be the peer's: then it is connected on this
    /// endpoint (a disconnected peer's connection on another endpoint is removed) and
    /// subscribers are told; otherwise the connection is removed, subscribers are told the
    /// peer is disconnected and it goes back to pending (a disconnected peer also waits
    /// longer before its next retry).  A connection to an endpoint of no referenced peer is
    /// kept as an unreferenced peer.
    pub fn on_connected(&mut self, endpoint: String, identity: String, connection_id: String, now: u64) -> (r:
        ConnectedActions)
        ensures
            final(self).spec_max_retry_attempts() == old(self).spec_max_retry_attempts(),
            final(self).references() == old(self).references(),
            old(self).peer_at(endpoint@) is None ==> r.remove_connections@.len() == 0 && r.notification is None
                && final(self).peers() == old(self).peers() && final(self).owners() == old(self).owners()
                && final(self).unreferenced() == old(self).unreferenced().insert(identity@, (endpoint@, connection_id@)),
            old(self).peer_at(endpoint@) matches Some(p) ==> final(self).unreferenced() == old(self).unreferenced() && match p.status {
                PeerStatus::Connected => r.remove_connections@.len() == 0 && (r.notification matches Some(n)
                    && connected_notice(n, p.id)) && final(self).peers() == old(self).peers() && final(self).owners()
                    == old(self).owners(),
                PeerStatus::Pending => if identity@ != p.id {
                    strings_view(r.remove_connections@) == seq![endpoint@] && (r.notification matches Some(n)
                        && disconnected_notice(n, p.id)) && final(self).peers() == old(self).peers().insert(p.id, p)
                        && final(self).owners() == with_owner(old(self).owners(), p.endpoints, p.id)
                } else {
                    r.remove_connections@.len() == 0 && (r.notification matches Some(n) && connected_notice(n, p.id))
                        && final(self).peers() == old(self).peers().insert(
                        p.id,
                        PeerView { status: PeerStatus::Connected, ..p },
                    ) && final(self).owners() == with_owner(old(self).owners(), p.endpoints, p.id)
                },
                PeerStatus::Disconnected { .. } => {
                    let stale = if endpoint@ != p.active_endpoint {
                        seq![p.active_endpoint]
                    } else {
                        Seq::empty()
                    };
                    if identity@ != p.id {
                        strings_view(r.remove_connections@) == stale.push(endpoint@) && (r.notification matches Some(n)
                            && disconnected_notice(n, p.id)) && final(self).peers() == old(self).peers().insert(
                            p.id,
                            PeerView {
                                status: PeerStatus::Pending,
                                retry_frequency: next_peer_retry(p.retry_frequency),
                                last_connection_attempt: now,
                                ..p
                            },
                        ) && final(self).owners() == with_owner(old(self).owners(), p.endpoints, p.id)
                    } else {
                        strings_view(r.remove_connections@) == stale && (r.notification matches Some(n)
                            && connected_notice(n, p.id)) && final(self).peers() == old(self).peers().insert(
                            p.id,
                            PeerView { status: PeerStatus::Connected, active_endpoint: endpoint@, ..p },
                        ) && final(self).owners() == with_owner(old(self).owners(), p.endpoints, p.id)
                    }
                },
            },
    {
        let mut remove_connections: Vec<String> = Vec::new();
        let mut meta = match self.peers.get_peer_from_endpoint(&endpoint) {
            Some(m) => m.clone(),
            None => {
                let ghost u = self.unreferenced();
                let ghost v = (endpoint@, connection_id@);
                let _ = self.unreferenced_peers.insert(identity, UnreferencedPeer { connection_id, endpoint });
                assert(self.unreferenced() =~= u.insert(identity@, v));
                return ConnectedActions { remove_connections, notification: None };
            },
        };
        match meta.status {
            PeerStatus::Connected => {
                let notification = PeerManagerNotification::Connected { peer: meta.id.clone() };
                ConnectedActions { remove_connections, notification: Some(notification) }
            },
            PeerStatus::Pending => {
                if identity != meta.id {
                    remove_connections.push(endpoint);
                    let notification = PeerManagerNotification::Disconnected { peer: meta.id.clone() };
                    meta.status = PeerStatus::Pending;
                    let _ = self.peers.update_peer(meta);
                    assert(strings_view(remove_connections@) =~= seq![endpoint@]);
                    return ConnectedActions { remove_connections, notification: Some(notification) };
                }
                meta.status = PeerStatus::Connected;
                let notification = PeerManagerNotification::Connected { peer: meta.id.clone() };
                let _ = self.peers.update_peer(meta);
                ConnectedActions { remove_connections, notification: Some(notification) }
            },
            PeerStatus::Disconnected { .. } => {
                let ghost active = meta.active_endpoint@;
                if endpoint != meta.active_endpoint {
                    remove_connections.push(meta.active_endpoint.clone());
                }
                if identity != meta.id {
                    let ghost before = remove_connections@;
                    remove_connections.push(endpoint);
                    assert(strings_view(remove_connections@) =~= strings_view(before).push(endpoint@));
                    let notification = PeerManagerNotification::Disconnected { peer: meta.id.clone() };
                    meta.retry_frequency = next_retry(meta.retry_frequency);
                    meta.last_connection_attempt = now;
                    meta.status = PeerStatus::Pending;
                    let _ = self.peers.update_peer(meta);
                    proof {
                        assert(strings_view(before) =~= if endpoint@ != active {
                            seq![active]
                        } else {
                            Seq::<Seq<char>>::empty()
                        });
                    }
                    return ConnectedActions { remove_connections, notification: Some(notification) };
                }
                assert(strings_view(remove_connections@) =~= if endpoint@ != active {
                    seq![active]
                } else {
                    Seq::<Seq<char>>::empty()
                });
                meta.status = PeerStatus::Connected;
                meta.active_endpoint = endpoint;
                let notification = PeerManagerNotification::Connected { peer: meta.id.clone() };
                let _ = self.peers.update_peer(meta);
                ConnectedActions { remove_connections, notification: Some(notification) }
            },
        }
    }

    /// The connection to `endpoint` failed for good, at time `now`: its peer goes back to
    /// pending, to be retried later than before, and subscribers are told it disconnected.
    pub fn on_fatal_error(&mut self, endpoint: &String, now: u64) -> (r: Option<PeerManagerNotification>)
        ensures
            final(self).spec_max_retry_attempts() == old(self).spec_max_retry_attempts(),
            final(self).references() == old(self).references(),
            final(self).unreferenced() == old(self).unreferenced(),
            match old(self).peer_at(endpoint@) {
                None => r is None && final(self).peers() == old(self).peers() && final(self).owners() == old(self).owners(),
                Some(p) => (r matches Some(n) && disconnected_notice(n, p.id)) && final(self).peers() == old(self).peers().insert(
                    p.id,
                    PeerView {
                        status: PeerStatus::Pending,
                        retry_frequency: next_peer_retry(p.retry_frequency),
                        last_connection_attempt: now,
                        ..p
                    },
                ) && final(self).owners() == with_owner(old(self).owners(), p.endpoints, p.id),
            },
    {
        let mut meta = match self.peers.get_peer_from_endpoint(endpoint) {
            Some(m) => m.clone(),
            None => {
                return None;
            },
        };
        let notification = PeerManagerNotification::Disconnected { peer: meta.id.clone() };
        meta.retry_frequency = next_retry(meta.retry_frequency);
        meta.last_connection_attempt = now;
        meta.status = PeerStatus::Pending;
        let _ = self.peers.update_peer(meta);
        Some(notification)
    }

    /// The answer of the connection manager to removing a peer's connection, as the result of
    /// removing the peer.
    pub fn remove_connection_outcome(result: Result<Option<String>, ConnectionManagerError>) -> (r: Result<
        (),
        PeerRefRemoveError,
    >)
        ensures
            result matches Ok(Some(_)) ==> r is Ok,
            result matches Ok(None) ==> (r matches Err(PeerRefRemoveError::RemoveError(s)) && s@
                == "No connection to remove, something has gone wrong"@),
            result matches Err(e) ==> (r matches Err(PeerRefRemoveError::RemoveError(s)) && s@
                == connection_manager_error_text(e)),
    {
        match result {
            Ok(Some(_)) => Ok(()),
            Ok(None) => Err(
                PeerRefRemoveError::RemoveError("No connection to remove, something has gone wrong".to_owned()),
            ),
            Err(err) => Err(PeerRefRemoveError::RemoveError(err.message())),
        }
    }
}

/// Whether peer `p` is pending and its retry delay has run out at time `now`.
pub open spec fn due_for_retry(p: PeerView, now: u64) -> bool {
    p.status == PeerStatus::Pending && now - p.last_connection_attempt > p.retry_frequency
}

impl PeerManagerState {
    /// The pending peers whose retry delay has run out at time `now`: their endpoints are to
    /// be requested again, each of them, and `on_retried` called with the last endpoint whose
    /// request went through.
    pub fn due_for_retry(&self, now: u64) -> (r: Vec<PeerMetadata>)
        ensures
            forall|i: int|
                0 <= i < r@.len() ==> self.peers().contains_key(#[trigger] r@[i].id@) && r@[i]@ == self.peers()[r@[i].id@]
                    && due_for_retry(r@[i]@, now),
            forall|k: Seq<char>|
                #![trigger self.peers()[k]]
                self.peers().contains_key(k) && due_for_retry(self.peers()[k], now) ==> exists|i: int|
                    0 <= i < r@.len() && #[trigger] r@[i].id@ == k,
    {
        let ids = self.peers.peer_ids();
        let mut due: Vec<PeerMetadata> = Vec::new();
        for i in 0..ids.len()
            invariant
                forall|k: Seq<char>|
                    self.peers().contains_key(k) <==> exists|j: int| 0 <= j < ids@.len() && #[trigger] ids@[j]@ == k,
                forall|j: int|
                    0 <= j < due@.len() ==> self.peers().contains_key(#[trigger] due@[j].id@) && due@[j]@
                        == self.peers()[due@[j].id@] && due_for_retry(due@[j]@, now),
                forall|j: int|
                    0 <= j < i && self.peers().contains_key(#[trigger] ids@[j]@) && due_for_retry(self.peers()[ids@[j]@], now)
                        ==> exists|h: int| 0 <= h < due@.len() && #[trigger] due@[h].id@ == ids@[j]@,
        {
            let ghost before = due@;
            match self.peers.get_by_peer_id(&ids[i]) {
                Some(meta) => {
                    if meta.status == PeerStatus::Pending && now > meta.last_connection_attempt
                        && now - meta.last_connection_attempt > meta.retry_frequency {
                        due.push(meta.clone());
                    }
                },
                None => {},
            }
            proof {
                assert(forall|h: int| 0 <= h < before.len() ==> due@[h] == before[h]);
                assert forall|j: int|
                    0 <= j < i + 1 && self.peers().contains_key(#[trigger] ids@[j]@) && due_for_retry(
                        self.peers()[ids@[j]@],
                        now,
                    ) implies exists|h: int| 0 <= h < due@.len() && #[trigger] due@[h].id@ == ids@[j]@ by {
                    if j < i {
                        let h = choose|h: int| 0 <= h < before.len() && #[trigger] before[h].id@ == ids@[j]@;
                        assert(due@[h].id@ == ids@[j]@);
                    } else {
                        assert(due@[before.len() as int].id@ == ids@[j]@);
                    }
                }
            }
        }
        proof {
            assert forall|k: Seq<char>|
                #![trigger self.peers()[k]]
                self.peers().contains_key(k) && due_for_retry(self.peers()[k], now) implies exists|h: int|
                    0 <= h < due@.len() && #[trigger] due@[h].id@ == k by {
                let j = choose|j: int| 0 <= j < ids@.len() && #[trigger] ids@[j]@ == k;
                let h = choose|h: int| 0 <= h < due@.len() && #[trigger] due@[h].id@ == ids@[j]@;
            }
        }
        due
    }

    /// The endpoints of `peer` were requested again at time `now`; `active_endpoint` is the
    /// last one whose request went through, if any.  The peer waits longer before its next
    /// retry and takes that endpoint as its active one.
    pub fn on_retried(&mut self, peer: PeerMetadata, active_endpoint: Option<String>, now: u64)
        ensures
            final(self).spec_max_retry_attempts() == old(self).spec_max_retry_attempts(),
            final(self).references() == old(self).references(),
            final(self).unreferenced() == old(self).unreferenced(),
            !old(self).peers().contains_key(peer.id@) ==> final(self).peers() == old(self).peers() && final(self).owners()
                == old(self).owners(),
            old(self).peers().contains_key(peer.id@) ==> final(self).peers() == old(self).peers().insert(
                peer.id@,
                PeerView {
                    active_endpoint: match active_endpoint {
                        Some(e) => e@,
                        None => peer@.active_endpoint,
                    },
                    retry_frequency: next_peer_retry(peer.retry_frequency),
                    last_connection_attempt: now,
                    ..peer@
                },
            ) && final(self).owners() == with_owner(old(self).owners(), peer@.endpoints, peer.id@),
    {
        let mut meta = peer;
        if let Some(e) = active_endpoint {
            meta.active_endpoint = e;
        }
        meta.retry_frequency = next_retry(meta.retry_frequency);
        meta.last_connection_attempt = now;
        let _ = self.peers.update_peer(meta);
    }
}

/// A peer is due for a retry exactly when it is pending and more than its retry delay has
/// passed since its last attempt; a pending peer whose delay has not run out is not due.
pub proof fn lemma_due_only_after_delay(p: PeerView, now: u64)
    ensures
        due_for_retry(p, now) <==> (p.status == PeerStatus::Pending && now > p.last_connection_attempt
            + p.retry_frequency),
        now <= p.last_connection_attempt + p.retry_frequency ==> !due_for_retry(p, now),
{
}

/// After a failure the retry delay doubles, up to the maximum: it is twice the old delay while
/// that stays within the maximum, and the maximum otherwise.
pub proof fn lemma_peer_retry_doubles(retry_frequency: u64)
    ensures
        2 * retry_frequency <= DEFAULT_MAXIMUM_RETRY_FREQUENCY ==> next_peer_retry(retry_frequency) == 2
            * retry_frequency,
        2 * retry_frequency >= DEFAULT_MAXIMUM_RETRY_FREQUENCY ==> next_peer_retry(retry_frequency)
            == DEFAULT_MAXIMUM_RETRY_FREQUENCY,
        retry_frequency > 0 && 2 * retry_frequency <= DEFAULT_MAXIMUM_RETRY_FREQUENCY ==> next_peer_retry(
            retry_frequency,
        ) > retry_frequency,
{
}

} // verus!
