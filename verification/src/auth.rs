//! Token cache and authenticator decisions: a mapping from credential
//! identity to a cached access token, consulted before every submission.
//! A cached token is usable exactly while the current time is below its
//! expiration timestamp; otherwise a fresh handshake against the identity
//! provider is required, and its outcome is written back here. The handshake
//! itself is a network exchange and is performed by the caller; this module
//! holds every decision around it.

use vstd::prelude::*;

verus! {

/// One cached access token: the token string and the absolute expiration
/// timestamp in seconds since the epoch.
pub struct TokenEntry {
    pub identity: String,
    pub access_token: String,
    pub expiration_time: u64,
}

/// What a successful identity-provider handshake returns: the access token
/// and its time-to-live in seconds.
pub struct HandshakeToken {
    pub access_token: String,
    pub expires_in: u64,
}

/// The token store: a mapping from credential identity to its cached token,
/// with at most one entry per identity. Entries are only ever replaced whole,
/// never partially changed.
pub struct TokenCache {
    pub entries: Vec<TokenEntry>,
}

/// The mathematical content of a sequence of cache entries: identity to
/// (token, expiration), later entries winning.
pub open spec fn entries_map(s: Seq<TokenEntry>) -> Map<Seq<char>, (Seq<char>, u64)>
    decreases s.len(),
{
    if s.len() == 0 {
        Map::empty()
    } else {
        entries_map(s.drop_last()).insert(
            s.last().identity@,
            (s.last().access_token@, s.last().expiration_time),
        )
    }
}

/// What a cache with content `m` answers for `identity` at time `now`: the
/// stored token while `now` is strictly below its expiration, else nothing.
pub open spec fn cached_lookup(
    m: Map<Seq<char>, (Seq<char>, u64)>,
    identity: Seq<char>,
    now: u64,
) -> Option<Seq<char>> {
    if m.contains_key(identity) && now < m[identity].1 {
        Some(m[identity].0)
    } else {
        None
    }
}

/// An entry with a matching identity determines the mapping's value there.
proof fn lemma_entries_map_index(s: Seq<TokenEntry>, i: int)
    requires
        forall|p: int, q: int|
            0 <= p < q < s.len() ==> #[trigger] s[p].identity@ != #[trigger] s[q].identity@,
        0 <= i < s.len(),
    ensures
        entries_map(s).contains_key(s[i].identity@),
        entries_map(s)[s[i].identity@] == (s[i].access_token@, s[i].expiration_time),
    decreases s.len(),
{
    if i < s.len() - 1 {
        lemma_entries_map_index(s.drop_last(), i);
    }
}

/// An identity no entry carries is not in the mapping.
proof fn lemma_entries_map_absent(s: Seq<TokenEntry>, identity: Seq<char>)
    requires
        forall|j: int| 0 <= j < s.len() ==> #[trigger] s[j].identity@ != identity,
    ensures
        !entries_map(s).contains_key(identity),
    decreases s.len(),
{
    if s.len() > 0 {
        lemma_entries_map_absent(s.drop_last(), identity);
    }
}

/// Removing the entry at `i` removes exactly its identity from the mapping.
proof fn lemma_entries_map_remove(s: Seq<TokenEntry>, i: int)
    requires
        forall|p: int, q: int|
            0 <= p < q < s.len() ==> #[trigger] s[p].identity@ != #[trigger] s[q].identity@,
        0 <= i < s.len(),
    ensures
        entries_map(s.remove(i)) =~= entries_map(s).remove(s[i].identity@),
    decreases s.len(),
{
    if i == s.len() - 1 {
        assert(s.remove(i) =~= s.drop_last());
        assert(forall|j: int|
            0 <= j < s.drop_last().len() ==> #[trigger] s.drop_last()[j].identity@ != s[i].identity@);
        lemma_entries_map_absent(s.drop_last(), s[i].identity@);
    } else {
        lemma_entries_map_remove(s.drop_last(), i);
        assert(s.remove(i).drop_last() =~= s.drop_last().remove(i));
        assert(s.remove(i).last() == s.last());
    }
}

impl TokenCache {
    /// At most one entry per identity.
    pub open spec fn wf(self) -> bool {
        forall|p: int, q: int|
            0 <= p < q < self.entries@.len() ==> #[trigger] self.entries@[p].identity@
                != #[trigger] self.entries@[q].identity@
    }

    /// The mapping this cache holds.
    pub open spec fn view(self) -> Map<Seq<char>, (Seq<char>, u64)> {
        entries_map(self.entries@)
    }

    /// An empty token store: no identity has a cached token.
    pub fn new() -> (r: TokenCache)
        ensures
            r.wf(),
            r@ == Map::<Seq<char>, (Seq<char>, u64)>::empty(),
    {
        TokenCache { entries: Vec::new() }
    }

    /// The position of the entry for `identity`, if one is stored.
    fn find_entry(&self, identity: &String) -> (r: Option<usize>)
        ensures
            match r {
                Some(i) => i < self.entries@.len() && self.entries@[i as int].identity@
                    == identity@,
                None => forall|j: int|
                    0 <= j < self.entries@.len() ==> #[trigger] self.entries@[j].identity@
                        != identity@,
            },
    {
        let mut i: usize = 0;
        while i < self.entries.len()
            invariant
                i <= self.entries@.len(),
                forall|j: int| 0 <= j < i ==> #[trigger] self.entries@[j].identity@ != identity@,
            decreases self.entries@.len() - i,
        {
            if self.entries[i].identity == *identity {
                return Some(i);
            }
            i += 1;
        }
        None
    }

    /// The no-handshake path: returns the cached token for `identity` exactly
    /// where one is stored whose expiration lies strictly after `now`; a
    /// missing or expired entry yields nothing, never a stale token.
    pub fn lookup(&self, identity: &String, now: u64) -> (r: Option<String>)
        requires
            self.wf(),
        ensures
            match r {
                Some(t) => cached_lookup(self@, identity@, now) == Some(t@),
                None => cached_lookup(self@, identity@, now) is None,
            },
    {
        match self.find_entry(identity) {
            Some(i) => {
                proof {
                    lemma_entries_map_index(self.entries@, i as int);
                }
                if now < self.entries[i].expiration_time {
                    Some(self.entries[i].access_token.clone())
                } else {
                    None
                }
            },
            None => {
                proof {
                    lemma_entries_map_absent(self.entries@, identity@);
                }
                None
            },
        }
    }

    /// Stores a token for `identity`, replacing whatever entry that identity
    /// had; no other identity's entry changes.
    pub fn store(&mut self, identity: &String, access_token: &String, expiration_time: u64)
        requires
            old(self).wf(),
        ensures
            final(self).wf(),
            final(self)@ == old(self)@.insert(identity@, (access_token@, expiration_time)),
    {
        let ghost pre = self.entries@;
        match self.find_entry(identity) {
            Some(i) => {
                proof {
                    lemma_entries_map_index(pre, i as int);
                    lemma_entries_map_remove(pre, i as int);
                }
                self.entries.remove(i);
            },
            None => {
                proof {
                    lemma_entries_map_absent(pre, identity@);
                }
            },
        }
        let ghost mid = self.entries@;
        self.entries.push(
            TokenEntry {
                identity: identity.clone(),
                access_token: access_token.clone(),
                expiration_time,
            },
        );
        proof {
            assert(self.entries@.drop_last() =~= mid);
            assert(entries_map(self.entries@) =~= old(self)@.insert(
                identity@,
                (access_token@, expiration_time),
            ));
            assert(forall|j: int|
                0 <= j < mid.len() ==> #[trigger] mid[j].identity@ != identity@);
        }
    }

    /// Applies a handshake outcome for `identity` at time `now`. A failed
    /// handshake (no token) changes nothing and yields nothing; a successful
    /// one stores the token under the absolute expiration `now + expires_in`
    /// and returns it.
    pub fn accept_handshake(
        &mut self,
        identity: &String,
        now: u64,
        outcome: Option<HandshakeToken>,
    ) -> (r: Option<String>)
        requires
            old(self).wf(),
            outcome matches Some(h) ==> now + h.expires_in <= u64::MAX,
        ensures
            final(self).wf(),
            match outcome {
                None => r is None && *final(self) == *old(self),
                Some(h) => {
                    &&& r matches Some(t) && t@ == h.access_token@
                    &&& final(self)@ == old(self)@.insert(
                        identity@,
                        (h.access_token@, (now + h.expires_in) as u64),
                    )
                },
            },
    {
        match outcome {
            None => None,
            Some(h) => {
                let expiration_time = now + h.expires_in;
                self.store(identity, &h.access_token, expiration_time);
                Some(h.access_token)
            },
        }
    }

    /// Looks the caller's token up at the current time. A token is returned
    /// only if it is the one stored for `identity` and had not yet expired at
    /// the sampled instant.
    pub fn current_token(&self, identity: &String) -> (r: Option<String>)
        requires
            self.wf(),
        ensures
            r matches Some(t) ==> self@.contains_key(identity@) && self@[identity@].0 == t@,
    {
        let now = current_timestamp();
        self.lookup(identity, now)
    }
}

/// Relies on `std::time::SystemTime::now` and `duration_since`: the current
/// time as whole seconds since the Unix epoch, as the store's timestamps are;
/// a clock that stands before the epoch reads as zero, so the call never
/// panics. Nothing is assumed of the value.
#[verifier::external_body]
fn current_timestamp() -> (r: u64) {
    match std::time::SystemTime::now().duration_since(std::time::UNIX_EPOCH) {
        Ok(elapsed) => elapsed.as_secs(),
        Err(_) => 0,
    }
}

/// Cache validity: once a token with expiration `expiration` is stored for an
/// identity, every lookup for that identity at a time strictly before
/// `expiration` answers exactly that token, so the no-handshake path applies
/// and returns the identical token string.
pub proof fn lemma_cache_validity(
    m: Map<Seq<char>, (Seq<char>, u64)>,
    identity: Seq<char>,
    token: Seq<char>,
    expiration: u64,
    now: u64,
)
    requires
        now < expiration,
    ensures
        cached_lookup(m.insert(identity, (token, expiration)), identity, now) == Some(token),
{
}

/// Cache expiry: an entry whose expiration has been reached is never
/// returned; the lookup reports that a fresh handshake is required.
pub proof fn lemma_cache_expiry(m: Map<Seq<char>, (Seq<char>, u64)>, identity: Seq<char>, now: u64)
    requires
        m.contains_key(identity) ==> m[identity].1 <= now,
    ensures
        cached_lookup(m, identity, now) is None,
{
}

/// Distinct identities are independent: storing a token for one identity
/// changes nothing in what a lookup for any other identity answers.
pub proof fn lemma_distinct_identities(
    m: Map<Seq<char>, (Seq<char>, u64)>,
    identity: Seq<char>,
    other: Seq<char>,
    token: Seq<char>,
    expiration: u64,
    now: u64,
)
    requires
        identity != other,
    ensures
        cached_lookup(m.insert(other, (token, expiration)), identity, now) == cached_lookup(
            m,
            identity,
            now,
        ),
{
}

} // verus!
