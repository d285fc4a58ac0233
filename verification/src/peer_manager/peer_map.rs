//! The peers a peer manager keeps, by peer id, and the peer each endpoint belongs to.
use vstd::prelude::*;

use crate::collections::{distinct_keys, distinct_strings, entries_map, lemma_entries_map_at, StringMap};

verus! {

/// The delay, in seconds, before a peer's endpoints are first retried.
pub const INITIAL_RETRY_FREQUENCY: u64 = 10;

/// Where a peer stands.
#[derive(Debug, Clone, Copy, PartialEq, Eq, Structural)]
pub enum PeerStatus {
    Connected,
    Pending,
    Disconnected { retry_attempts: u64 },
}

/// What the peer manager knows of a peer.
#[derive(Debug, PartialEq)]
pub struct PeerMetadata {
    pub id: String,
    pub connection_id: String,
    pub endpoints: Vec<String>,
    pub active_endpoint: String,
    pub status: PeerStatus,
    pub last_connection_attempt: u64,
    pub retry_frequency: u64,
}

/// A peer as the contracts speak of it.
pub struct PeerView {
    pub id: Seq<char>,
    pub connection_id: Seq<char>,
    pub endpoints: Seq<Seq<char>>,
    pub active_endpoint: Seq<char>,
    pub status: PeerStatus,
    pub last_connection_attempt: u64,
    pub retry_frequency: u64,
}

/// The characters of each string.
pub open spec fn strings_view(v: Seq<String>) -> Seq<Seq<char>> {
    Seq::new(v.len(), |i: int| v[i]@)
}

impl PeerMetadata {
    pub open spec fn view(&self) -> PeerView {
        PeerView {
            id: self.id@,
            connection_id: self.connection_id@,
            endpoints: strings_view(self.endpoints@),
            active_endpoint: self.active_endpoint@,
            status: self.status,
            last_connection_attempt: self.last_connection_attempt,
            retry_frequency: self.retry_frequency,
        }
    }
}

/// Copies a list of strings.
pub fn copy_strings(v: &Vec<String>) -> (r: Vec<String>)
    ensures
        strings_view(r@) == strings_view(v@),
{
    let mut r: Vec<String> = Vec::new();
    for i in 0..v.len()
        invariant
            r@.len() == i,
            forall|j: int| 0 <= j < i ==> #[trigger] r@[j]@ == v@[j]@,
    {
        r.push(v[i].clone());
    }
    assert(strings_view(r@) =~= strings_view(v@));
    r
}

impl Clone for PeerMetadata {
    fn clone(&self) -> (r: Self)
        ensures
            r@ == self@,
    {
        PeerMetadata {
            id: self.id.clone(),
            connection_id: self.connection_id.clone(),
            endpoints: copy_strings(&self.endpoints),
            active_endpoint: self.active_endpoint.clone(),
            status: self.status,
            last_connection_attempt: self.last_connection_attempt,
            retry_frequency: self.retry_frequency,
        }
    }
}

/// `owners` with each of `endpoints` made to belong to peer `id`, in order.
pub open spec fn with_owner(owners: Map<Seq<char>, Seq<char>>, endpoints: Seq<Seq<char>>, id: Seq<char>) -> Map<
    Seq<char>,
    Seq<char>,
>
    decreases endpoints.len(),
{
    if endpoints.len() == 0 {
        owners
    } else {
        with_owner(owners, endpoints.drop_last(), id).insert(endpoints.last(), id)
    }
}

/// `owners` without any of `endpoints`.
pub open spec fn without_endpoints(owners: Map<Seq<char>, Seq<char>>, endpoints: Seq<Seq<char>>) -> Map<
    Seq<char>,
    Seq<char>,
>
    decreases endpoints.len(),
{
    if endpoints.len() == 0 {
        owners
    } else {
        without_endpoints(owners, endpoints.drop_last()).remove(endpoints.last())
    }
}

/// Why a peer could not be updated.
#[derive(Debug, PartialEq)]
pub struct PeerUpdateError(pub String);

/// The peers, by peer id, and the peer each known endpoint belongs to.
pub struct PeerMap {
    peers: StringMap<PeerMetadata>,
    endpoints: StringMap<String>,
}

impl PeerMap {
    /// The peers, by peer id.
    pub closed spec fn peers(&self) -> Map<Seq<char>, PeerView> {
        self.peers@.map_values(|m: PeerMetadata| m@)
    }

    /// The peer id each endpoint belongs to.
    pub closed spec fn owners(&self) -> Map<Seq<char>, Seq<char>> {
        self.endpoints@.map_values(|s: String| s@)
    }

    /// Each peer is kept under its own id.
    #[verifier::type_invariant]
    spec fn keyed_by_id(&self) -> bool {
        forall|k: Seq<char>| #[trigger] self.peers@.contains_key(k) ==> self.peers@[k].id@ == k
    }

    /// No peers.
    pub fn new() -> (m: Self)
        ensures
            m.peers() == Map::<Seq<char>, PeerView>::empty(),
            m.owners() == Map::<Seq<char>, Seq<char>>::empty(),
    {
        let m = PeerMap { peers: StringMap::new(), endpoints: StringMap::new() };
        assert(m.peers() =~= Map::<Seq<char>, PeerView>::empty());
        assert(m.owners() =~= Map::<Seq<char>, Seq<char>>::empty());
        m
    }

    /// Makes each of `endpoints` belong to peer `id`.
    fn set_owner(owners: &mut StringMap<String>, endpoints: &Vec<String>, id: &String)
        ensures
            final(owners)@.map_values(|s: String| s@) == with_owner(
                old(owners)@.map_values(|s: String| s@),
                strings_view(endpoints@),
                id@,
            ),
    {
        for i in 0..endpoints.len()
            invariant
                owners@.map_values(|s: String| s@) == with_owner(
                    old(owners)@.map_values(|s: String| s@),
                    strings_view(endpoints@).take(i as int),
                    id@,
                ),
        {
            let ghost before = owners@.map_values(|s: String| s@);
            let _ = owners.insert(endpoints[i].clone(), id.clone());
            proof {
                assert(strings_view(endpoints@).take(i + 1).drop_last() =~= strings_view(endpoints@).take(i as int));
                assert(owners@.map_values(|s: String| s@) =~= before.insert(endpoints@[i as int]@, id@));
            }
        }
        assert(strings_view(endpoints@).take(endpoints@.len() as int) =~= strings_view(endpoints@));
    }

    /// Removes each of `endpoints`.
    fn remove_endpoints(owners: &mut StringMap<String>, endpoints: &Vec<String>)
        ensures
            final(owners)@.map_values(|s: String| s@) == without_endpoints(
                old(owners)@.map_values(|s: String| s@),
                strings_view(endpoints@),
            ),
    {
        for i in 0..endpoints.len()
            invariant
                owners@.map_values(|s: String| s@) == without_endpoints(
                    old(owners)@.map_values(|s: String| s@),
                    strings_view(endpoints@).take(i as int),
                ),
        {
            let ghost before = owners@.map_values(|s: String| s@);
            let _ = owners.remove(&endpoints[i]);
            proof {
                assert(strings_view(endpoints@).take(i + 1).drop_last() =~= strings_view(endpoints@).take(i as int));
                assert(owners@.map_values(|s: String| s@) =~= before.remove(endpoints@[i as int]@));
            }
        }
        assert(strings_view(endpoints@).take(endpoints@.len() as int) =~= strings_view(endpoints@));
    }

    /// Takes the two maps out, leaving empty ones in their place.
    fn take_maps(&mut self) -> (r: (StringMap<PeerMetadata>, StringMap<String>))
        ensures
            r.0@ == old(self).peers@,
            r.1@ == old(self).endpoints@,
            forall|k: Seq<char>| #[trigger] r.0@.contains_key(k) ==> r.0@[k].id@ == k,
            final(self).peers@ == Map::<Seq<char>, PeerMetadata>::empty(),
    {
        proof {
            use_type_invariant(&*self);
        }
        let mut peers = StringMap::new();
        let mut endpoints = StringMap::new();
        std::mem::swap(&mut peers, &mut self.peers);
        std::mem::swap(&mut endpoints, &mut self.endpoints);
        (peers, endpoints)
    }

    /// Records peer `peer_id`, its endpoints each belonging to it; its endpoints are first
    /// retried `INITIAL_RETRY_FREQUENCY` seconds after `now`.
    pub fn insert(
        &mut self,
        peer_id: String,
        connection_id: String,
        endpoints: Vec<String>,
        active_endpoint: String,
        status: PeerStatus,
        now: u64,
    )
        ensures
            final(self).peers() == old(self).peers().insert(
                peer_id@,
                PeerView {
                    id: peer_id@,
                    connection_id: connection_id@,
                    endpoints: strings_view(endpoints@),
                    active_endpoint: active_endpoint@,
                    status,
                    last_connection_attempt: now,
                    retry_frequency: INITIAL_RETRY_FREQUENCY,
                },
            ),
            final(self).owners() == with_owner(old(self).owners(), strings_view(endpoints@), peer_id@),
    {
        let (mut peers, mut owners) = self.take_maps();
        Self::set_owner(&mut owners, &endpoints, &peer_id);
        let meta = PeerMetadata {
            id: peer_id.clone(),
            connection_id,
            endpoints,
            active_endpoint,
            status,
            last_connection_attempt: now,
            retry_frequency: INITIAL_RETRY_FREQUENCY,
        };
        let ghost v = meta@;
        let _ = peers.insert(peer_id, meta);
        self.peers = peers;
        self.endpoints = owners;
        assert(self.peers() =~= old(self).peers().insert(peer_id@, v));
    }

    /// Drops peer `peer_id` and its endpoints, returning it.
    pub fn remove(&mut self, peer_id: &String) -> (r: Option<PeerMetadata>)
        ensures
            final(self).peers() == old(self).peers().remove(peer_id@),
            !old(self).peers().contains_key(peer_id@) ==> r is None && final(self).owners() == old(self).owners(),
            old(self).peers().contains_key(peer_id@) ==> (r matches Some(m) && m@ == old(self).peers()[peer_id@])
                && final(self).owners() == without_endpoints(
                old(self).owners(),
                old(self).peers()[peer_id@].endpoints,
            ),
    {
        let (mut peers, mut owners) = self.take_maps();
        let r = match peers.remove(peer_id) {
            Some(meta) => {
                Self::remove_endpoints(&mut owners, &meta.endpoints);
                Some(meta)
            },
            None => None,
        };
        self.peers = peers;
        self.endpoints = owners;
        assert(self.peers() =~= old(self).peers().remove(peer_id@));
        r
    }

    /// Replaces the record of the peer `peer_metadata` is for, its endpoints each belonging
    /// to it; an error when the peer is unknown.
    pub fn update_peer(&mut self, peer_metadata: PeerMetadata) -> (r: Result<(), PeerUpdateError>)
        ensures
            r is Ok <==> old(self).peers().contains_key(peer_metadata.id@),
            r is Ok ==> final(self).peers() == old(self).peers().insert(peer_metadata.id@, peer_metadata@)
                && final(self).owners() == with_owner(old(self).owners(), peer_metadata@.endpoints, peer_metadata.id@),
            r is Err ==> final(self).peers() == old(self).peers() && final(self).owners() == old(self).owners(),
    {
        if !self.peers.contains_key(&peer_metadata.id) {
            return Err(PeerUpdateError("Unable to update peer: peer does not exist".to_owned()));
        }
        let (mut peers, mut owners) = self.take_maps();
        Self::set_owner(&mut owners, &peer_metadata.endpoints, &peer_metadata.id);
        let ghost v = peer_metadata@;
        let id = peer_metadata.id.clone();
        let _ = peers.insert(id, peer_metadata);
        self.peers = peers;
        self.endpoints = owners;
        assert(self.peers() =~= old(self).peers().insert(v.id, v));
        Ok(())
    }

    /// The peer `peer_id`, if known.
    pub fn get_by_peer_id(&self, peer_id: &String) -> (r: Option<&PeerMetadata>)
        ensures
            match r {
                Some(m) => self.peers().contains_key(peer_id@) && m@ == self.peers()[peer_id@] && m.id@ == peer_id@,
                None => !self.peers().contains_key(peer_id@),
            },
    {
        proof {
            use_type_invariant(self);
        }
        self.peers.get(peer_id)
    }

    /// The peer endpoint `endpoint` belongs to, if it is known.
    pub fn get_peer_from_endpoint(&self, endpoint: &String) -> (r: Option<&PeerMetadata>)
        ensures
            match r {
                Some(m) => self.owners().contains_key(endpoint@) && self.peers().contains_key(
                    self.owners()[endpoint@],
                ) && m@ == self.peers()[self.owners()[endpoint@]] && m.id@ == self.owners()[endpoint@],
                None => !(self.owners().contains_key(endpoint@) && self.peers().contains_key(
                    self.owners()[endpoint@],
                )),
            },
    {
        proof {
            use_type_invariant(self);
        }
        match self.endpoints.get(endpoint) {
            Some(peer_id) => self.peers.get(peer_id),
            None => None,
        }
    }

    /// A peer on connection `connection_id`, if there is one.
    pub fn get_by_connection_id(&self, connection_id: &String) -> (r: Option<&PeerMetadata>)
        ensures
            match r {
                Some(m) => m.connection_id@ == connection_id@ && self.peers().contains_key(m.id@) && self.peers()[m.id@]
                    == m@,
                None => forall|k: Seq<char>|
                    #[trigger] self.peers().contains_key(k) ==> self.peers()[k].connection_id != connection_id@,
            },
    {
        proof {
            use_type_invariant(self);
        }
        let n = self.peers.len();
        let ghost entries = self.peers.entries();
        for i in 0..n
            invariant
                n == entries.len(),
                entries == self.peers.entries(),
                distinct_keys(entries),
                self.peers@ == entries_map(entries),
                forall|k: Seq<char>| #[trigger] self.peers@.contains_key(k) ==> self.peers@[k].id@ == k,
                forall|j: int| 0 <= j < i ==> #[trigger] entries[j].1.connection_id@ != connection_id@,
        {
            let meta = self.peers.value_at(i);
            proof {
                lemma_entries_map_at(entries, i as int);
            }
            if meta.connection_id == *connection_id {
                assert(self.peers@.contains_key(entries[i as int].0@));
                return Some(meta);
            }
        }
        proof {
            assert forall|k: Seq<char>| #[trigger] self.peers().contains_key(k) implies self.peers()[k].connection_id
                != connection_id@ by {
                let j = choose|j: int| 0 <= j < entries.len() && #[trigger] entries[j].0@ == k;
                lemma_entries_map_at(entries, j);
            }
        }
        None
    }

    /// The ids of the peers.
    pub fn peer_ids(&self) -> (r: Vec<String>)
        ensures
            forall|k: Seq<char>| self.peers().contains_key(k) <==> exists|i: int| 0 <= i < r@.len() && #[trigger] r@[i]@ == k,
            distinct_strings(r@),
    {
        self.peers.keys()
    }
}

} // verus!
