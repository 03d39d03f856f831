//! The cache of signing keys and its refresh policy.
//!
//! The cache never talks to the network itself. A caller asks it what to do at
//! a given time ([`JwkManager::get_jwks`]); where the answer is to refresh, the
//! caller fetches the key set and hands the outcome back
//! ([`JwkManager::refresh`]). Guarding the cache with a reader/writer lock, and
//! asking again once the write lock is held, is the caller's part.

use vstd::prelude::*;
use vstd::string::*;
use crate::server::keys::{FetchError, JsonWebKeySet, JwkView};

verus! {

/// Seconds after which a key set counts as stale, unless configured otherwise.
pub const DEFAULT_MAX_AGE_SECS: u64 = 300;

/// Why the cache cannot answer.
#[derive(Clone, Copy, Debug, PartialEq, Eq, Structural)]
pub enum CacheError {
    /// The clock reads earlier than the time of the last refresh.
    ClockWentBackwards,
}

/// What the cache answers when asked for the keys.
#[derive(Debug)]
pub enum KeyLookup {
    /// The key set is fresh enough: here it is.
    Fresh(JsonWebKeySet),
    /// The key set is stale: fetch a new one and call `refresh`.
    Stale,
}

/// The cache: one key set with the time it was fetched at, the provider's key
/// set URL, the client identifier that tokens must carry, and the age from
/// which the key set is stale.
#[derive(Debug)]
pub struct JwkManager {
    jwks: JsonWebKeySet,
    last_refresh: u64,
    max_age: u64,
    cognito_client_id: String,
    jwks_url: String,
}

/// The mathematical content of a [`JwkManager`]. Times are seconds.
pub struct CacheView {
    pub keys: Seq<JwkView>,
    pub last_refresh: int,
    pub max_age: int,
    pub client_id: Seq<char>,
    pub jwks_url: Seq<char>,
}

/// One complete request for the keys as the cache sees it: the time of the
/// request, and what a fetch brings should the cache ask for one (`None`
/// where the fetch fails).
pub struct KeyRequest {
    pub now: int,
    pub fetched: Option<Seq<JwkView>>,
}

/// The URL under which a provider publishes its key set.
pub open spec fn well_known_url(host: Seq<char>) -> Seq<char> {
    "https://"@ + host + "/.well-known/jwks.json"@
}

/// The key set that a fetch brought, if it brought one.
pub open spec fn fetched_keys(fetched: Result<JsonWebKeySet, FetchError>) -> Option<Seq<JwkView>> {
    match fetched {
        Ok(jwks) => Some(jwks@),
        Err(_) => None,
    }
}

impl CacheView {
    /// The clock has not gone back behind the last refresh.
    pub open spec fn clock_ok(self, now: int) -> bool {
        self.last_refresh <= now
    }

    /// The key set is older than the cache accepts.
    pub open spec fn stale(self, now: int) -> bool {
        now - self.last_refresh > self.max_age
    }

    /// The cache after a fetch: a new key set replaces the old one whole and is
    /// stamped with the time; a failed fetch changes nothing.
    pub open spec fn refreshed(self, fetched: Option<Seq<JwkView>>, now: int) -> CacheView {
        match fetched {
            Some(keys) => CacheView { keys, last_refresh: now, ..self },
            None => self,
        }
    }

    /// Whether a request at `now` makes the cache ask for a fetch.
    pub open spec fn fetches(self, now: int) -> bool {
        self.clock_ok(now) && self.stale(now)
    }

    /// The cache after one complete request.
    pub open spec fn served(self, request: KeyRequest) -> CacheView {
        if self.fetches(request.now) {
            self.refreshed(request.fetched, request.now)
        } else {
            self
        }
    }

    /// The number of fetches that a series of requests causes, one after
    /// another.
    pub open spec fn fetch_count(self, requests: Seq<KeyRequest>) -> nat
        decreases requests.len(),
    {
        if requests.len() == 0 {
            0
        } else {
            let first: nat = if self.fetches(requests[0].now) {
                1
            } else {
                0
            };
            first + self.served(requests[0]).fetch_count(requests.drop_first())
        }
    }
}

impl View for JwkManager {
    type V = CacheView;

    closed spec fn view(&self) -> CacheView {
        CacheView {
            keys: self.jwks@,
            last_refresh: self.last_refresh as int,
            max_age: self.max_age as int,
            client_id: self.cognito_client_id@,
            jwks_url: self.jwks_url@,
        }
    }
}

impl JwkManager {
    /// The key set URL of a provider host.
    pub fn jwks_url_for(cognito_user_pool: &str) -> (url: String)
        ensures
            url@ == well_known_url(cognito_user_pool@),
    {
        let mut url = "https://".to_owned();
        url.append(cognito_user_pool);
        url.append("/.well-known/jwks.json");
        url
    }

    /// Builds the cache from the outcome of the first fetch, made at `now`.
    /// Without a first key set there is no cache: the fetch error is handed
    /// back.
    pub fn new(
        cognito_user_pool: String,
        cognito_client_id: String,
        fetched: Result<JsonWebKeySet, FetchError>,
        now: u64,
    ) -> (made: Result<JwkManager, FetchError>)
        ensures
            match fetched {
                Ok(jwks) => (made matches Ok(manager) && manager@ == (CacheView {
                    keys: jwks@,
                    last_refresh: now as int,
                    max_age: DEFAULT_MAX_AGE_SECS as int,
                    client_id: cognito_client_id@,
                    jwks_url: well_known_url(cognito_user_pool@),
                })),
                Err(error) => made == Err::<JwkManager, FetchError>(error),
            },
    {
        match fetched {
            Ok(jwks) => Ok(
                JwkManager {
                    jwks,
                    last_refresh: now,
                    max_age: DEFAULT_MAX_AGE_SECS,
                    cognito_client_id,
                    jwks_url: Self::jwks_url_for(cognito_user_pool.as_str()),
                },
            ),
            Err(error) => Err(error),
        }
    }

    /// Sets the age, in seconds, from which the key set is stale.
    pub fn with_max_age(self, max_age: u64) -> (changed: JwkManager)
        ensures
            changed@ == (CacheView { max_age: max_age as int, ..self@ }),
    {
        JwkManager {
            jwks: self.jwks,
            last_refresh: self.last_refresh,
            max_age,
            cognito_client_id: self.cognito_client_id,
            jwks_url: self.jwks_url,
        }
    }

    /// Answers a request for the keys at `now`: the key set while it is fresh,
    /// else the order to refresh. Nothing is changed. The same question is
    /// asked a second time once the write lock is held, since another request
    /// may have refreshed the cache meanwhile. The clock is to be read while
    /// the lock is held, so that `now` cannot lie before a refresh that
    /// another request made.
    pub fn get_jwks(&self, now: u64) -> (answer: Result<KeyLookup, CacheError>)
        ensures
            !self@.clock_ok(now as int) ==> answer == Err::<KeyLookup, CacheError>(
                CacheError::ClockWentBackwards,
            ),
            self@.fetches(now as int) ==> answer == Ok::<KeyLookup, CacheError>(KeyLookup::Stale),
            self@.clock_ok(now as int) && !self@.stale(now as int) ==> (answer matches Ok(
                KeyLookup::Fresh(jwks),
            ) && jwks@ == self@.keys),
    {
        if now < self.last_refresh {
            Err(CacheError::ClockWentBackwards)
        } else if now - self.last_refresh > self.max_age {
            Ok(KeyLookup::Stale)
        } else {
            Ok(KeyLookup::Fresh(self.jwks.clone()))
        }
    }

    /// Takes in the outcome of a fetch made at `now`. A new key set replaces
    /// the cached one whole; after a failed fetch the last good key set stays,
    /// with its old time. Either way the keys to use are returned.
    pub fn refresh(&mut self, fetched: Result<JsonWebKeySet, FetchError>, now: u64) -> (current:
        JsonWebKeySet)
        ensures
            final(self)@ == old(self)@.refreshed(fetched_keys(fetched), now as int),
            current@ == final(self)@.keys,
    {
        match fetched {
            Ok(jwks) => {
                self.jwks = jwks;
                self.last_refresh = now;
            },
            Err(_) => {},
        }
        self.jwks.clone()
    }

    /// The client identifier that tokens must carry.
    pub fn get_client_id(&self) -> (client_id: &str)
        ensures
            client_id@ == self@.client_id,
    {
        self.cognito_client_id.as_str()
    }

    /// The URL to fetch the key set from.
    pub fn get_jwks_url(&self) -> (url: &str)
        ensures
            url@ == self@.jwks_url,
    {
        self.jwks_url.as_str()
    }
}

/// Requests made while the key set is within its allowed age cause no fetch,
/// however many they are, and leave the cache as it was.
pub proof fn lemma_fresh_requests_fetch_nothing(cache: CacheView, requests: Seq<KeyRequest>)
    requires
        forall|i: int|
            0 <= i < requests.len() ==> !cache.stale((#[trigger] requests[i]).now),
    ensures
        cache.fetch_count(requests) == 0,
    decreases requests.len(),
{
    if requests.len() > 0 {
        assert(!cache.stale(requests[0].now));
        let rest = requests.drop_first();
        assert forall|i: int| 0 <= i < rest.len() implies !cache.stale((#[trigger] rest[i]).now) by {
            assert(rest[i] == requests[i + 1]);
        }
        lemma_fresh_requests_fetch_nothing(cache, rest);
    }
}

/// One request causes at most one fetch, so a series of requests causes no
/// more fetches than it has requests.
pub proof fn lemma_at_most_one_fetch_each(cache: CacheView, requests: Seq<KeyRequest>)
    ensures
        cache.fetch_count(requests) <= requests.len(),
    decreases requests.len(),
{
    if requests.len() > 0 {
        lemma_at_most_one_fetch_each(cache.served(requests[0]), requests.drop_first());
    }
}

/// A request made after the allowed age has passed causes exactly one fetch,
/// and the requests that follow a successful fetch within the allowed age
/// cause no more: of requests that straddle the moment the key set goes
/// stale, only the first one fetches.
pub proof fn lemma_one_refresh_serves_all(
    cache: CacheView,
    first: KeyRequest,
    followers: Seq<KeyRequest>,
)
    requires
        cache.max_age >= 0,
        cache.clock_ok(first.now),
        cache.stale(first.now),
        first.fetched.is_some(),
        forall|i: int|
            0 <= i < followers.len() ==> first.now <= (#[trigger] followers[i]).now <= first.now
                + cache.max_age,
    ensures
        cache.fetch_count(seq![first] + followers) == 1,
        cache.served(first).keys == first.fetched.unwrap(),
{
    let requests = seq![first] + followers;
    assert(requests[0] == first);
    assert(requests.drop_first() =~= followers);
    let next = cache.served(first);
    assert(next.last_refresh == first.now);
    assert forall|i: int| 0 <= i < followers.len() implies !next.stale(
        (#[trigger] followers[i]).now,
    ) by {}
    lemma_fresh_requests_fetch_nothing(next, followers);
}

/// Requests within the allowed age cause no fetch, and the next request after
/// it has passed causes exactly one.
pub proof fn lemma_one_fetch_per_window(
    cache: CacheView,
    within: Seq<KeyRequest>,
    after: KeyRequest,
)
    requires
        forall|i: int| 0 <= i < within.len() ==> !cache.stale((#[trigger] within[i]).now),
        cache.clock_ok(after.now),
        cache.stale(after.now),
    ensures
        cache.fetch_count(within) == 0,
        cache.fetch_count(within + seq![after]) == 1,
    decreases within.len(),
{
    lemma_fresh_requests_fetch_nothing(cache, within);
    let all = within + seq![after];
    if within.len() == 0 {
        assert(all[0] == after);
        assert(all.drop_first() =~= Seq::<KeyRequest>::empty());
        assert(cache.served(after).fetch_count(Seq::<KeyRequest>::empty()) == 0);
    } else {
        assert(all[0] == within[0]);
        assert(!cache.stale(within[0].now));
        assert(all.drop_first() =~= within.drop_first() + seq![after]);
        let rest = within.drop_first();
        assert forall|i: int| 0 <= i < rest.len() implies !cache.stale((#[trigger] rest[i]).now) by {
            assert(rest[i] == within[i + 1]);
        }
        lemma_one_fetch_per_window(cache, rest, after);
    }
}

} // verus!
