//! The credential manager's data: a storage credential with an optional
//! expiry, and a cache around it that decides when a fresh credential must
//! be fetched from the credential source.

use vstd::prelude::*;

verus! {

/// Access-key material used to sign requests. `expiry` is an absolute time
/// in seconds since the Unix epoch; `None` means the credential never
/// expires. A credential is immutable once obtained: a refresh supersedes
/// it with a new value instead of mutating it.
#[derive(Clone)]
pub struct Credential {
    pub access_key: String,
    pub secret_key: String,
    pub session_token: Option<String>,
    pub expiry: Option<u64>,
}

impl Credential {
    /// A credential is valid at `now` when it has no expiry or its expiry
    /// lies strictly in the future.
    pub open spec fn spec_valid_at(self, now: u64) -> bool {
        match self.expiry {
            Option::None => true,
            Option::Some(e) => now < e,
        }
    }

    /// Runtime check matching `spec_valid_at`.
    pub fn valid_at(&self, now: u64) -> (b: bool)
        ensures
            b == self.spec_valid_at(now),
    {
        match self.expiry {
            Option::None => true,
            Option::Some(e) => now < e,
        }
    }
}

/// The cached credential shared by all request handlers. It starts empty
/// and afterwards always holds the most recently fetched credential.
pub struct CredentialCache {
    pub cached: Option<Credential>,
}

impl CredentialCache {
    /// The cache can serve a request at `now` without a fetch exactly when
    /// it holds a credential that is still valid at `now`.
    pub open spec fn spec_has_valid(self, now: u64) -> bool {
        self.cached.is_some() && self.cached.unwrap().spec_valid_at(now)
    }

    /// An empty cache; the first request will always fetch.
    pub fn new() -> (c: CredentialCache)
        ensures
            c.cached.is_none(),
            forall|now: u64| !c.spec_has_valid(now),
    {
        CredentialCache { cached: None }
    }

    /// The refresh decision: a fetch is needed exactly when the cached
    /// credential is absent or no longer valid at `now`.
    pub open spec fn spec_needs_refresh(self, now: u64) -> bool {
        !self.spec_has_valid(now)
    }

    /// The per-request refresh decision: checked on every request, true
    /// exactly when the cached credential is absent or no longer valid at
    /// `now`, so that a fetch happens only when necessary.
    pub fn needs_refresh(&self, now: u64) -> (b: bool)
        ensures
            b == self.spec_needs_refresh(now),
    {
        match &self.cached {
            Option::None => true,
            Option::Some(c) => !c.valid_at(now),
        }
    }

    /// Publishes a freshly fetched credential, superseding the old one.
    pub fn store(&mut self, c: Credential)
        ensures
            final(self).cached == Some(c),
    {
        self.cached = Some(c);
    }

    /// The cached credential, for a request that found the cache valid.
    pub fn current(&self, now: u64) -> (c: &Credential)
        requires
            self.spec_has_valid(now),
        ensures
            *c == self.cached.unwrap(),
            c.spec_valid_at(now),
    {
        self.cached.as_ref().unwrap()
    }
}

/// A cache left untouched while valid serves any number of requests
/// without a fetch: for every sequence of request instants at which the
/// cached credential is still valid, each request's refresh decision is
/// negative, so none of them touches the credential source.
pub proof fn lemma_valid_window_needs_no_fetch(cache: CredentialCache, times: Seq<u64>)
    requires
        forall|i: int| 0 <= i < times.len() ==> cache.spec_has_valid(#[trigger] times[i]),
    ensures
        forall|i: int| 0 <= i < times.len() ==> !cache.spec_needs_refresh(#[trigger] times[i]),
{
}

/// One fetch suffices after an expiry: storing a credential that is valid
/// at `now` leaves the cache valid at `now`, so the same request decides
/// against any further fetch.
pub proof fn lemma_single_fetch_restores_validity(c: Credential, now: u64)
    requires
        c.spec_valid_at(now),
    ensures
        (CredentialCache { cached: Some(c) }).spec_has_valid(now),
{
}

} // verus!
