//! Authorizers for the simple cases: identities known beforehand, and a choice of authorizer by
//! the remote endpoint.
use vstd::prelude::*;
use vstd::string::StringExecFns;
use vstd::utf8::encode_utf8;

use crate::collections::StringMap;

use super::{AuthorizationResult, Authorizer, AuthorizerError};

verus! {

/// The map that inserting `pairs` in order makes: a later pair for an endpoint wins.
pub open spec fn pairs_map(pairs: Seq<(String, String)>) -> Map<Seq<char>, String>
    decreases pairs.len(),
{
    if pairs.len() == 0 {
        Map::empty()
    } else {
        pairs_map(pairs.drop_last()).insert(pairs.last().0@, pairs.last().1)
    }
}

/// Authorizes connections by their remote endpoint, with identities given beforehand; a
/// connection from any other endpoint is unauthorized.
///
/// It is meant for known, internal connections.
pub struct InprocAuthorizer {
    endpoint_to_identities: StringMap<String>,
}

impl InprocAuthorizer {
    /// The identity of each known endpoint.
    pub closed spec fn identities(&self) -> Map<Seq<char>, String> {
        self.endpoint_to_identities@
    }

    /// An authorizer with the identities of `identities`, pairs of endpoint and identity.
    pub fn new(identities: Vec<(String, String)>) -> (a: Self)
        ensures
            a.identities() == pairs_map(identities@),
    {
        let mut map: StringMap<String> = StringMap::new();
        let ghost all = identities@;
        let mut rest = identities;
        let ghost mut k: int = 0;
        assert(all.skip(0) =~= all);
        assert(all.take(0) =~= Seq::<(String, String)>::empty());
        while rest.len() > 0
            invariant
                0 <= k <= all.len(),
                rest@ == all.skip(k),
                map@ == pairs_map(all.take(k)),
            decreases rest.len(),
        {
            let (endpoint, identity) = rest.remove(0);
            let _ = map.insert(endpoint, identity);
            proof {
                assert(all.take(k + 1).drop_last() =~= all.take(k));
                assert(rest@ =~= all.skip(k + 1));
                k = k + 1;
            }
        }
        assert(all.take(k) =~= all);
        InprocAuthorizer { endpoint_to_identities: map }
    }
}

impl<C> Authorizer<C> for InprocAuthorizer {
    fn authorize_connection(&self, connection_id: String, remote_endpoint: &str, connection: C) -> (r: Result<
        AuthorizationResult<C>,
        AuthorizerError,
    >)
        ensures
            r is Ok,
            self.identities().contains_key(remote_endpoint@) ==> (r matches Ok(AuthorizationResult::Authorized {
                identity,
                ..
            }) && identity == self.identities()[remote_endpoint@]),
            !self.identities().contains_key(remote_endpoint@) ==> r matches Ok(AuthorizationResult::Unauthorized { .. }),
    {
        match self.endpoint_to_identities.get(&remote_endpoint.to_owned()) {
            Some(identity) => Ok(AuthorizationResult::Authorized { connection_id, identity: identity.clone(), connection }),
            None => Ok(AuthorizationResult::Unauthorized { connection_id, connection }),
        }
    }
}

/// Whether `endpoint` starts with `prefix`, byte for byte.
pub open spec fn starts_with(endpoint: Seq<char>, prefix: Seq<char>) -> bool {
    encode_utf8(prefix).is_prefix_of(encode_utf8(endpoint))
}

/// The first of `prefixes` that `endpoint` starts with, if any.
pub open spec fn first_match(prefixes: Seq<Seq<char>>, endpoint: Seq<char>) -> Option<int> {
    if exists|i: int| 0 <= i < prefixes.len() && starts_with(endpoint, #[trigger] prefixes[i]) {
        Some(
            choose|i: int|
                0 <= i < prefixes.len() && starts_with(endpoint, #[trigger] prefixes[i]) && forall|j: int|
                    0 <= j < i ==> !starts_with(endpoint, #[trigger] prefixes[j]),
        )
    } else {
        None
    }
}

proof fn lemma_least_match(prefixes: Seq<Seq<char>>, endpoint: Seq<char>, k: int)
    requires
        0 <= k <= prefixes.len(),
        forall|j: int| 0 <= j < k ==> !starts_with(endpoint, #[trigger] prefixes[j]),
        exists|i: int| k <= i < prefixes.len() && starts_with(endpoint, #[trigger] prefixes[i]),
    ensures
        exists|i: int|
            0 <= i < prefixes.len() && starts_with(endpoint, #[trigger] prefixes[i]) && forall|j: int|
                0 <= j < i ==> !starts_with(endpoint, #[trigger] prefixes[j]),
    decreases prefixes.len() - k,
{
    if starts_with(endpoint, prefixes[k]) {
        assert(0 <= k < prefixes.len() && starts_with(endpoint, prefixes[k]) && forall|j: int|
            0 <= j < k ==> !starts_with(endpoint, #[trigger] prefixes[j]));
    } else {
        let i = choose|i: int| k <= i < prefixes.len() && starts_with(endpoint, #[trigger] prefixes[i]);
        assert(i != k);
        lemma_least_match(prefixes, endpoint, k + 1);
    }
}

/// The first prefix wins: when some prefix matches an endpoint, the one chosen matches it and
/// no prefix before it does; when none matches, nothing is chosen.
pub proof fn lemma_first_match_wins(prefixes: Seq<Seq<char>>, endpoint: Seq<char>)
    ensures
        first_match(prefixes, endpoint) matches Some(i) ==> 0 <= i < prefixes.len() && starts_with(
            endpoint,
            prefixes[i],
        ) && forall|j: int| 0 <= j < i ==> !starts_with(endpoint, #[trigger] prefixes[j]),
        first_match(prefixes, endpoint) is None <==> forall|j: int|
            0 <= j < prefixes.len() ==> !starts_with(endpoint, #[trigger] prefixes[j]),
{
    if exists|i: int| 0 <= i < prefixes.len() && starts_with(endpoint, #[trigger] prefixes[i]) {
        lemma_least_match(prefixes, endpoint, 0);
    }
}

/// The text of the error for a connection no authorizer matches.
pub open spec fn no_authorizer_text(connection_id: Seq<char>, endpoint: Seq<char>) -> Seq<char> {
    "no authorizer found for "@ + connection_id + " ("@ + endpoint + ")"@
}

/// A choice of authorizer by the remote endpoint of the connection: the first authorizer
/// whose prefix the endpoint starts with, in the order they were added.  A default can be
/// added last with the empty prefix.
pub struct Authorizers<A> {
    authorizers: Vec<(String, A)>,
}

impl<A> Authorizers<A> {
    /// The prefixes, in the order they were added.
    pub closed spec fn prefixes(&self) -> Seq<Seq<char>> {
        Seq::new(self.authorizers@.len(), |i: int| self.authorizers@[i].0@)
    }

    /// The authorizers, in the order they were added.
    pub closed spec fn spec_authorizers(&self) -> Seq<A> {
        Seq::new(self.authorizers@.len(), |i: int| self.authorizers@[i].1)
    }

    /// No authorizers.
    pub fn new() -> (a: Self)
        ensures
            a.prefixes() == Seq::<Seq<char>>::empty(),
            a.spec_authorizers() == Seq::<A>::empty(),
    {
        let a = Authorizers { authorizers: Vec::new() };
        assert(a.prefixes() =~= Seq::<Seq<char>>::empty());
        assert(a.spec_authorizers() =~= Seq::<A>::empty());
        a
    }

    /// Adds an authorizer for the endpoints that start with `match_prefix`, after those added
    /// before.
    pub fn add_authorizer(&mut self, match_prefix: &str, authorizer: A)
        ensures
            final(self).prefixes() == old(self).prefixes().push(match_prefix@),
            final(self).spec_authorizers() == old(self).spec_authorizers().push(authorizer),
    {
        let prefix = match_prefix.to_owned();
        assert(prefix@ == match_prefix@);
        self.authorizers.push((prefix, authorizer));
        assert(self.prefixes() =~= old(self).prefixes().push(match_prefix@));
        assert(self.spec_authorizers() =~= old(self).spec_authorizers().push(authorizer));
    }
}

impl<C> Authorizer<C> for Box<dyn Authorizer<C>> {
    fn authorize_connection(&self, connection_id: String, remote_endpoint: &str, connection: C) -> (r: Result<
        AuthorizationResult<C>,
        AuthorizerError,
    >) {
        (**self).authorize_connection(connection_id, remote_endpoint, connection)
    }
}

/// Whether `s` starts with `prefix`, byte for byte.
fn bytes_start_with(s: &[u8], prefix: &[u8]) -> (b: bool)
    ensures
        b == prefix@.is_prefix_of(s@),
{
    if prefix.len() > s.len() {
        return false;
    }
    for i in 0..prefix.len()
        invariant
            prefix@.len() <= s@.len(),
            forall|j: int| 0 <= j < i ==> prefix@[j] == s@[j],
    {
        if prefix[i] != s[i] {
            return false;
        }
    }
    true
}

impl<C, A: Authorizer<C>> Authorizer<C> for Authorizers<A> {
    fn authorize_connection(&self, connection_id: String, remote_endpoint: &str, connection: C) -> (r: Result<
        AuthorizationResult<C>,
        AuthorizerError,
    >)
        ensures
            first_match(self.prefixes(), remote_endpoint@) is None ==> (r matches Err(AuthorizerError(s)) && s@
                == no_authorizer_text(connection_id@, remote_endpoint@)),
            first_match(self.prefixes(), remote_endpoint@) matches Some(i) ==> call_ensures(
                A::authorize_connection,
                (&self.spec_authorizers()[i], connection_id, remote_endpoint, connection),
                r,
            ),
    {
        let endpoint_bytes = remote_endpoint.as_bytes();
        for i in 0..self.authorizers.len()
            invariant
                endpoint_bytes@ == encode_utf8(remote_endpoint@),
                forall|j: int| 0 <= j < i ==> !starts_with(remote_endpoint@, #[trigger] self.prefixes()[j]),
        {
            let prefix = self.authorizers[i].0.as_str();
            if bytes_start_with(endpoint_bytes, prefix.as_bytes()) {
                assert(starts_with(remote_endpoint@, self.prefixes()[i as int]));
                let authorize = A::authorize_connection;
                let r = authorize(&self.authorizers[i].1, connection_id, remote_endpoint, connection);
                proof {
                    assert(first_match(self.prefixes(), remote_endpoint@) == Some(i as int));
                }
                return r;
            }
        }
        let mut text = "no authorizer found for ".to_owned();
        text.append(connection_id.as_str());
        text.append(" (");
        text.append(remote_endpoint);
        text.append(")");
        Err(AuthorizerError(text))
    }
}

} // verus!
