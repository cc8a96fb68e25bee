//! Cache of the identity provider's public signing keys.
//!
//! The provider publishes a key set at a well-known endpoint and rotates it;
//! the cache keeps the most recently fetched set together with an expiry
//! instant. Fetching is the caller's business (it is network work); the cache
//! decides *when* a fetch is due, installs a fetched set wholesale, and
//! resolves key ids for the token validator.

use vstd::prelude::*;

verus! {

/// Number of seconds a fetched signing-key set stays fresh.
pub const KEY_TTL_SECONDS: u64 = 60 * 60 * 5;

/// One public signing key, as the provider publishes it: key id, algorithm
/// name, and the RSA modulus and exponent in the provider's textual encoding.
pub struct SigningKey {
    pub kid: String,
    pub alg: String,
    pub n: String,
    pub e: String,
}

/// Mathematical image of a [`SigningKey`].
pub struct SigningKeyView {
    pub kid: Seq<char>,
    pub alg: Seq<char>,
    pub n: Seq<char>,
    pub e: Seq<char>,
}

impl View for SigningKey {
    type V = SigningKeyView;

    open spec fn view(&self) -> SigningKeyView {
        SigningKeyView { kid: self.kid@, alg: self.alg@, n: self.n@, e: self.e@ }
    }
}

impl DeepView for SigningKey {
    type V = SigningKeyView;

    open spec fn deep_view(&self) -> SigningKeyView {
        self.view()
    }
}

impl Clone for SigningKey {
    fn clone(&self) -> (r: Self)
        ensures
            r@ == self@,
    {
        SigningKey {
            kid: self.kid.clone(),
            alg: self.alg.clone(),
            n: self.n.clone(),
            e: self.e.clone(),
        }
    }
}

/// Why a key id could not be resolved.
#[derive(Clone, Copy, Debug, PartialEq, Eq, Structural)]
pub enum KeyError {
    /// A refresh was due but no fresh key set could be retrieved, and the
    /// cache held nothing to fall back on.
    RetrievalFailed,
    /// The key set is present but holds no key with the requested id. The
    /// caller must treat the token as untrustworthy, not retry.
    NotFound,
}

/// The key cache: the last installed key set and the instant it goes stale.
/// `expires_at == 0` means the cache was never populated.
pub struct KeyCache {
    keys: Vec<SigningKey>,
    expires_at: u64,
}

/// Mathematical image of a [`KeyCache`].
pub struct KeyCacheView {
    pub keys: Seq<SigningKeyView>,
    pub expires_at: u64,
}

impl View for KeyCache {
    type V = KeyCacheView;

    closed spec fn view(&self) -> KeyCacheView {
        KeyCacheView { keys: self.keys.deep_view(), expires_at: self.expires_at }
    }
}

/// Resolve a key id against a key set. When the provider lists one id twice,
/// the later entry wins, as it would when inserting into a map keyed by id.
pub open spec fn spec_lookup(keys: Seq<SigningKeyView>, kid: Seq<char>) -> Option<SigningKeyView>
    decreases keys.len(),
{
    if keys.len() == 0 {
        None
    } else if keys.last().kid == kid {
        Some(keys.last())
    } else {
        spec_lookup(keys.drop_last(), kid)
    }
}

/// A refresh is due when the cache was never populated, holds no keys, or has
/// passed its expiry instant.
pub open spec fn spec_needs_refresh(c: KeyCacheView, now: u64) -> bool {
    c.keys.len() == 0 || now >= c.expires_at
}

/// What one `get_key` call does: the cache afterwards, and the result.
/// `fetched` is the outcome of the provider fetch the caller performed
/// (`None` for a network or parse failure); it is consulted only when a
/// refresh is due.
pub open spec fn spec_get_key(
    c: KeyCacheView,
    kid: Seq<char>,
    now: u64,
    fetched: Option<Seq<SigningKeyView>>,
) -> (KeyCacheView, Result<SigningKeyView, KeyError>) {
    if !spec_needs_refresh(c, now) {
        (c, result_of_lookup(c.keys, kid))
    } else {
        match fetched {
            Some(ks) => {
                let fresh = KeyCacheView { keys: ks, expires_at: (now + KEY_TTL_SECONDS) as u64 };
                (fresh, result_of_lookup(ks, kid))
            },
            None => {
                if c.keys.len() == 0 {
                    (c, Err(KeyError::RetrievalFailed))
                } else {
                    (c, result_of_lookup(c.keys, kid))
                }
            },
        }
    }
}

/// Lookup outcome as a result: an absent id is `NotFound`.
pub open spec fn result_of_lookup(keys: Seq<SigningKeyView>, kid: Seq<char>) -> Result<
    SigningKeyView,
    KeyError,
> {
    match spec_lookup(keys, kid) {
        Some(k) => Ok(k),
        None => Err(KeyError::NotFound),
    }
}

impl KeyCache {
    /// A cache that was never populated.
    pub fn new() -> (r: Self)
        ensures
            r@.keys == Seq::<SigningKeyView>::empty(),
            r@.expires_at == 0,
    {
        let keys: Vec<SigningKey> = Vec::new();
        proof {
            assert(keys.deep_view() =~= Seq::<SigningKeyView>::empty());
        }
        KeyCache { keys, expires_at: 0 }
    }

    /// Whether the caller must fetch a fresh key set before trusting lookups.
    pub fn needs_refresh(&self, now: u64) -> (r: bool)
        ensures
            r == spec_needs_refresh(self@, now),
    {
        self.keys.len() == 0 || now >= self.expires_at
    }

    /// Install a freshly fetched key set, replacing the old set wholesale: a
    /// key the provider rotated out disappears. The set stays fresh for
    /// [`KEY_TTL_SECONDS`] from `now`.
    pub fn install(&mut self, keys: Vec<SigningKey>, now: u64)
        requires
            now + KEY_TTL_SECONDS <= u64::MAX,
        ensures
            final(self)@.keys == keys.deep_view(),
            final(self)@.expires_at == now + KEY_TTL_SECONDS,
    {
        self.keys = keys;
        self.expires_at = now + KEY_TTL_SECONDS;
    }

    /// Resolve a key id against whatever is currently cached, fresh or stale.
    pub fn lookup(&self, kid: &String) -> (r: Option<&SigningKey>)
        ensures
            match r {
                Some(k) => spec_lookup(self@.keys, kid@) == Some(k@),
                None => spec_lookup(self@.keys, kid@) is None,
            },
    {
        let ghost keys = self@.keys;
        let mut i: usize = self.keys.len();
        proof {
            assert(keys.take(keys.len() as int) =~= keys);
        }
        while i > 0
            invariant
                i <= self.keys.len(),
                keys == self@.keys,
                spec_lookup(keys, kid@) == spec_lookup(keys.take(i as int), kid@),
            decreases i,
        {
            i -= 1;
            proof {
                assert(keys.take(i as int + 1).drop_last() =~= keys.take(i as int));
                assert(keys.take(i as int + 1).last() == keys[i as int]);
                assert(self.keys@[i as int]@ == keys[i as int]);
            }
            if self.keys[i].kid == *kid {
                return Some(&self.keys[i]);
            }
        }
        proof {
            assert(keys.take(0) =~= Seq::<SigningKeyView>::empty());
        }
        None
    }

    /// Resolve a key id, refreshing first when the cache is due. The caller
    /// hands in the outcome of the provider fetch it performed (`None` for a
    /// network or parse failure); it is consulted only when a refresh is due.
    /// On a failed refresh the stale set, if any, is kept and still answers.
    pub fn get_key(&mut self, kid: &String, now: u64, fetched: Option<Vec<SigningKey>>) -> (r:
        Result<SigningKey, KeyError>)
        requires
            now + KEY_TTL_SECONDS <= u64::MAX,
        ensures
            ({
                let (cache, res) = spec_get_key(old(self)@, kid@, now, fetched.deep_view());
                final(self)@ == cache && match (r, res) {
                    (Ok(k), Ok(kv)) => k@ == kv,
                    (Err(a), Err(b)) => a == b,
                    _ => false,
                }
            }),
    {
        if self.needs_refresh(now) {
            match fetched {
                Some(ks) => {
                    self.install(ks, now);
                },
                None => {
                    if self.keys.len() == 0 {
                        return Err(KeyError::RetrievalFailed);
                    }
                },
            }
        }
        match self.lookup(kid) {
            Some(k) => Ok(k.clone()),
            None => Err(KeyError::NotFound),
        }
    }
}

/// An expired cache accepts exactly one refresh: the first resolution after
/// expiry consults the fetched set, and as long as that set is non-empty the
/// cache it leaves behind is fresh until `now + KEY_TTL_SECONDS`, so a later
/// resolution within that window neither needs nor consults another fetch and
/// leaves the cache untouched.
pub proof fn lemma_refresh_happens_once(
    c: KeyCacheView,
    kid1: Seq<char>,
    kid2: Seq<char>,
    now: u64,
    later: u64,
    fetched: Seq<SigningKeyView>,
    outcome2: Option<Seq<SigningKeyView>>,
)
    requires
        now >= c.expires_at,
        now + KEY_TTL_SECONDS <= u64::MAX,
        fetched.len() > 0,
        now <= later < now + KEY_TTL_SECONDS,
    ensures
        spec_needs_refresh(c, now),
        !spec_needs_refresh(spec_get_key(c, kid1, now, Some(fetched)).0, later),
        spec_get_key(spec_get_key(c, kid1, now, Some(fetched)).0, kid2, later, outcome2).0
            == spec_get_key(c, kid1, now, Some(fetched)).0,
{
}

} // verus!
