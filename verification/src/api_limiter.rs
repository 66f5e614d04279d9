//! Per-client, per-path request rate limiting within fixed windows, with
//! path-specific limits and periodic cleanup of expired trackers.
//!
//! Times are milliseconds on a monotonic clock; durations are milliseconds.
use vstd::prelude::*;
use crate::error::AppError;
use crate::login_limiter::elapsed;
use crate::store::KeyedStore;
use crate::text::{owned, u64_to_string, dec};

verus! {

/// Requests seen from one client on one path in the current window.
#[derive(Debug, Clone, Copy, PartialEq, Eq)]
pub struct RequestTracker {
    pub count: usize,
    pub first_request: u64,
    pub last_request: u64,
}

/// Limit figures reported to clients.
#[derive(Debug, Clone, Copy, PartialEq, Eq)]
pub struct RateLimitInfo {
    pub limit: usize,
    pub remaining: usize,
    pub reset_time: u64,
}

/// The abstract state of an API rate limiter.
#[verifier::ext_equal]
pub struct ApiLimiterState {
    pub requests: Map<Seq<char>, RequestTracker>,
    pub max_requests: Map<Seq<char>, usize>,
    pub default_max_requests: usize,
    pub window_duration: u64,
    pub cleanup_interval: u64,
    pub last_cleanup: u64,
}

/// The tracker key of a client on a path: `client:path`.
pub open spec fn request_key(client: Seq<char>, path: Seq<char>) -> Seq<char> {
    client + ":"@ + path
}

/// The limit that applies to `path`.
pub open spec fn limit_for(s: ApiLimiterState, path: Seq<char>) -> usize {
    if s.max_requests.contains_key(path) { s.max_requests[path] } else { s.default_max_requests }
}

/// A tracker is still in its window at `now`.
pub open spec fn in_window(t: RequestTracker, now: u64, window: u64) -> bool {
    elapsed(now, t.first_request) <= window
}

/// The state after the periodic cleanup that a check performs at `now`.
pub open spec fn after_cleanup(s: ApiLimiterState, now: u64) -> ApiLimiterState {
    if elapsed(now, s.last_cleanup) >= s.cleanup_interval {
        ApiLimiterState {
            requests: s.requests.restrict(s.requests.dom().filter(|k: Seq<char>| in_window(s.requests[k], now, s.window_duration))),
            last_cleanup: now,
            ..s
        }
    } else {
        s
    }
}

/// The request is over the limit at `now` in state `s`.
pub open spec fn over_limit(s: ApiLimiterState, key: Seq<char>, path: Seq<char>, now: u64) -> bool {
    s.requests.contains_key(key) && in_window(s.requests[key], now, s.window_duration)
        && s.requests[key].count >= limit_for(s, path)
}

/// Seconds until the window of `t` resets.
pub open spec fn reset_secs(t: RequestTracker, now: u64, window: u64) -> nat {
    let reset = if t.first_request + window > u64::MAX { u64::MAX as int } else { t.first_request + window };
    (if reset >= now { (reset - now) / 1000 } else { 0 }) as nat
}

/// The tracker table after an accepted request.
pub open spec fn count_request(m: Map<Seq<char>, RequestTracker>, key: Seq<char>, now: u64, window: u64) -> Map<Seq<char>, RequestTracker> {
    if m.contains_key(key) && in_window(m[key], now, window) {
        m.insert(key, RequestTracker { count: (m[key].count + 1) as usize, first_request: m[key].first_request, last_request: now })
    } else {
        m.insert(key, RequestTracker { count: 1, first_request: now, last_request: now })
    }
}

/// Message of a refused request.
pub open spec fn rate_limit_msg(secs: nat) -> Seq<char> {
    "Rate limit exceeded. Please try again in "@ + dec(secs) + " seconds"@
}

/// One check of `client` on `path` at `now`: the state afterwards, and
/// whether the request was accepted.
pub open spec fn check_step(s: ApiLimiterState, client: Seq<char>, path: Seq<char>, now: u64) -> (ApiLimiterState, bool) {
    let c = after_cleanup(s, now);
    let key = request_key(client, path);
    if over_limit(c, key, path, now) {
        (c, false)
    } else {
        (ApiLimiterState { requests: count_request(c.requests, key, now, c.window_duration), ..c }, true)
    }
}

/// The state after checks of `client` on `path` at each of `times`, in order.
pub open spec fn run_checks(s: ApiLimiterState, client: Seq<char>, path: Seq<char>, times: Seq<u64>) -> ApiLimiterState
    decreases times.len(),
{
    if times.len() == 0 {
        s
    } else {
        check_step(run_checks(s, client, path, times.drop_last()), client, path, times.last()).0
    }
}

/// Whether the check at `times[j]`, after those at `times[0..j]`, is accepted.
pub open spec fn check_accepted(s: ApiLimiterState, client: Seq<char>, path: Seq<char>, times: Seq<u64>, j: int) -> bool {
    check_step(run_checks(s, client, path, times.take(j)), client, path, times[j]).1
}

/// The state with `limit` set for `path` (what `add_path_limit` does).
pub open spec fn with_path_limit(s: ApiLimiterState, path: Seq<char>, limit: usize) -> ApiLimiterState {
    ApiLimiterState { max_requests: s.max_requests.insert(path, limit), ..s }
}

/// Rate limiter for API requests.
pub struct ApiRateLimiter {
    requests: KeyedStore<RequestTracker>,
    window_duration: u64,
    max_requests: KeyedStore<usize>,
    default_max_requests: usize,
    cleanup_interval: u64,
    last_cleanup: u64,
}

fn request_key_exec(client: &str, path: &str) -> (k: String)
    ensures
        k@ == request_key(client@, path@),
{
    let mut k = owned(client);
    k.append(":");
    k.append(path);
    k
}

impl ApiRateLimiter {
    #[verifier::type_invariant]
    spec fn inv(&self) -> bool {
        self.requests.wf() && self.max_requests.wf()
    }

    /// The limiter's abstract state.
    pub closed spec fn view(&self) -> ApiLimiterState {
        ApiLimiterState {
            requests: self.requests.view(),
            max_requests: self.max_requests.view(),
            default_max_requests: self.default_max_requests,
            window_duration: self.window_duration,
            cleanup_interval: self.cleanup_interval,
            last_cleanup: self.last_cleanup,
        }
    }

    /// A limiter with no trackers and no path-specific limits, created at `now`.
    pub fn new(window_duration: u64, default_max_requests: usize, cleanup_interval: u64, now: u64) -> (r: Self)
        ensures
            r@ == (ApiLimiterState {
                requests: Map::empty(),
                max_requests: Map::empty(),
                default_max_requests,
                window_duration,
                cleanup_interval,
                last_cleanup: now,
            }),
    {
        ApiRateLimiter {
            requests: KeyedStore::new(),
            window_duration,
            max_requests: KeyedStore::new(),
            default_max_requests,
            cleanup_interval,
            last_cleanup: now,
        }
    }

    /// One hundred requests per minute, cleanup every five minutes, and
    /// tighter limits on `/graphql` (60), `/login` (10) and `/register` (5).
    pub fn default(now: u64) -> (r: Self)
        ensures
            r@.requests == Map::<Seq<char>, RequestTracker>::empty(),
            r@.max_requests == Map::<Seq<char>, usize>::empty().insert("/graphql"@, 60).insert("/login"@, 10).insert("/register"@, 5),
            r@.default_max_requests == 100,
            r@.window_duration == 60_000,
            r@.cleanup_interval == 300_000,
            r@.last_cleanup == now,
    {
        let mut limiter = Self::new(60_000, 100, 300_000, now);
        limiter.add_path_limit("/graphql", 60);
        limiter.add_path_limit("/login", 10);
        limiter.add_path_limit("/register", 5);
        limiter
    }

    /// Sets the limit for a specific path.
    pub fn add_path_limit(&mut self, path: &str, max_requests: usize) -> (r: &mut Self)
        ensures
            *final(self) == *final(r),
            r@ == with_path_limit(old(self)@, path@, max_requests),
    {
        proof {
            use_type_invariant(&*self);
        }
        let mut limits = KeyedStore::new();
        std::mem::swap(&mut limits, &mut self.max_requests);
        limits.insert(path, max_requests);
        self.max_requests = limits;
        self
    }

    fn limit_for_path(&self, path: &str) -> (l: usize)
        ensures
            l == limit_for(self@, path@),
    {
        proof {
            use_type_invariant(self);
        }
        match self.max_requests.get(path) {
            Some(l) => *l,
            None => self.default_max_requests,
        }
    }

    /// Counts a request of `client_id` on `path` at `now`, or refuses it when
    /// the client has used up the path's limit in the current window.
    pub fn check_rate_limit(&mut self, client_id: &str, path: &str, now: u64) -> (r: Result<(), AppError>)
        ensures
            ({
                let c = after_cleanup(old(self)@, now);
                let key = request_key(client_id@, path@);
                &&& r is Err <==> over_limit(c, key, path@, now)
                &&& r is Err ==> final(self)@ == c
                &&& r is Ok ==> final(self)@ == (ApiLimiterState {
                    requests: count_request(c.requests, key, now, c.window_duration),
                    ..c
                })
                &&& r matches Err(e) ==> e is RateLimitError
                    && e->RateLimitError_0@ == rate_limit_msg(reset_secs(c.requests[key], now, c.window_duration))
            }),
            final(self)@ == check_step(old(self)@, client_id@, path@, now).0,
            (r is Ok) == check_step(old(self)@, client_id@, path@, now).1,
    {
        proof {
            use_type_invariant(&*self);
        }
        let ghost c = after_cleanup(self@, now);
        let since_cleanup = if now >= self.last_cleanup { now - self.last_cleanup } else { 0 };
        if since_cleanup >= self.cleanup_interval {
            let w = self.window_duration;
            let keep = |t: &RequestTracker| -> (b: bool)
                ensures
                    b == in_window(*t, now, w),
            {
                let since = if now >= t.first_request { now - t.first_request } else { 0 };
                since <= w
            };
            let mut store = KeyedStore::new();
            std::mem::swap(&mut store, &mut self.requests);
            store.retain(keep, Ghost(|t: RequestTracker| in_window(t, now, w)));
            assert(store.view() =~= c.requests);
            self.requests = store;
            self.last_cleanup = now;
        }
        assert(self@ =~= c);
        let limit = self.limit_for_path(path);
        let key = request_key_exec(client_id, path);
        let w = self.window_duration;
        let mut store = KeyedStore::new();
        std::mem::swap(&mut store, &mut self.requests);
        let result = match store.get(key.as_str()) {
            Some(t) => {
                let t = *t;
                let since = if now >= t.first_request { now - t.first_request } else { 0 };
                if since <= w && t.count >= limit {
                    let reset = t.first_request.saturating_add(w);
                    let secs = if reset >= now { (reset - now) / 1000 } else { 0 };
                    let mut msg = owned("Rate limit exceeded. Please try again in ");
                    let n = u64_to_string(secs);
                    msg.append(n.as_str());
                    msg.append(" seconds");
                    Err(AppError::RateLimitError(msg))
                } else if since > w {
                    store.insert(key.as_str(), RequestTracker { count: 1, first_request: now, last_request: now });
                    Ok(())
                } else {
                    store.insert(key.as_str(), RequestTracker { count: t.count + 1, first_request: t.first_request, last_request: now });
                    Ok(())
                }
            },
            None => {
                store.insert(key.as_str(), RequestTracker { count: 1, first_request: now, last_request: now });
                Ok(())
            },
        };
        self.requests = store;
        result
    }

    /// Limit, remaining requests and seconds to reset for `client_id` on `path` at `now`.
    pub fn get_limit_info(&self, client_id: &str, path: &str, now: u64) -> (r: Option<RateLimitInfo>)
        ensures
            ({
                let key = request_key(client_id@, path@);
                let limit = limit_for(self@, path@);
                let m = self@.requests;
                r == Some(if m.contains_key(key) && in_window(m[key], now, self@.window_duration) {
                    RateLimitInfo {
                        limit,
                        remaining: if m[key].count >= limit { 0 } else { (limit - m[key].count) as usize },
                        reset_time: reset_secs(m[key], now, self@.window_duration) as u64,
                    }
                } else {
                    RateLimitInfo { limit, remaining: limit, reset_time: 0 }
                })
            }),
    {
        proof {
            use_type_invariant(self);
        }
        let limit = self.limit_for_path(path);
        let key = request_key_exec(client_id, path);
        match self.requests.get(key.as_str()) {
            Some(t) => {
                let since = if now >= t.first_request { now - t.first_request } else { 0 };
                if since <= self.window_duration {
                    let remaining = if t.count >= limit { 0 } else { limit - t.count };
                    let reset = t.first_request.saturating_add(self.window_duration);
                    let reset_time = if reset >= now { (reset - now) / 1000 } else { 0 };
                    return Some(RateLimitInfo { limit, remaining, reset_time });
                }
            },
            None => {},
        }
        Some(RateLimitInfo { limit, remaining: limit, reset_time: 0 })
    }
}

/// Law: a request that is accepted leaves its tracker within the path's limit,
/// provided the tracker was within it before.
pub proof fn law_accepted_within_limit(s: ApiLimiterState, client: Seq<char>, path: Seq<char>, now: u64)
    requires
        limit_for(s, path) >= 1,
        !over_limit(s, request_key(client, path), path, now),
        s.requests.contains_key(request_key(client, path)) ==> s.requests[request_key(client, path)].count <= limit_for(s, path),
    ensures
        ({
            let key = request_key(client, path);
            let m = count_request(s.requests, key, now, s.window_duration);
            m[key].count <= limit_for(s, path)
        }),
{
}

/// Law: a refused request changes nothing but the periodic cleanup, so a
/// client over its limit stays refused for the rest of the window.
pub proof fn law_refused_stays_refused(s: ApiLimiterState, client: Seq<char>, path: Seq<char>, now: u64, later: u64)
    requires
        over_limit(s, request_key(client, path), path, now),
        now <= later,
        s.requests[request_key(client, path)].first_request <= now,
        later - s.requests[request_key(client, path)].first_request <= s.window_duration,
    ensures
        over_limit(after_cleanup(s, later), request_key(client, path), path, later),
{
}

/// Law: clients are counted separately: accepting a request of one client
/// leaves every other tracker as the cleanup left it.
pub proof fn law_clients_independent(s: ApiLimiterState, client: Seq<char>, path: Seq<char>, now: u64, other: Seq<char>)
    requires
        other != request_key(client, path),
    ensures
        count_request(s.requests, request_key(client, path), now, s.window_duration).contains_key(other)
            == s.requests.contains_key(other),
        s.requests.contains_key(other) ==> count_request(s.requests, request_key(client, path), now, s.window_duration)[other]
            == s.requests[other],
{
}

/// What `k` checks, all within one window of the first, leave behind for a
/// client that had no tracker: a tracker started at the first check whose
/// count is `k`, capped at the limit.
proof fn lemma_run_checks(s: ApiLimiterState, client: Seq<char>, path: Seq<char>, times: Seq<u64>, k: int)
    requires
        0 <= k <= times.len(),
        !s.requests.contains_key(request_key(client, path)),
        limit_for(s, path) >= 1,
        forall|j: int| 0 <= j < times.len() ==> times[0] <= #[trigger] times[j] && times[j] - times[0] <= s.window_duration,
    ensures
        ({
            let st = run_checks(s, client, path, times.take(k));
            let key = request_key(client, path);
            let l = limit_for(s, path);
            &&& st.max_requests == s.max_requests
            &&& st.default_max_requests == s.default_max_requests
            &&& st.window_duration == s.window_duration
            &&& st.cleanup_interval == s.cleanup_interval
            &&& k == 0 ==> !st.requests.contains_key(key)
            &&& k > 0 ==> st.requests.contains_key(key) && st.requests[key].first_request == times[0]
                && st.requests[key].count == (if k < l { k } else { l as int })
        }),
    decreases k,
{
    if k > 0 {
        lemma_run_checks(s, client, path, times, k - 1);
        assert(times.take(k).drop_last() =~= times.take(k - 1));
        assert(times.take(k).last() == times[k - 1]);
        let prev = run_checks(s, client, path, times.take(k - 1));
        let key = request_key(client, path);
        let t = times[k - 1];
        let c = after_cleanup(prev, t);
        if k > 1 {
            assert(in_window(prev.requests[key], t, prev.window_duration));
            assert(c.requests.contains_key(key) && c.requests[key] == prev.requests[key]);
        } else {
            assert(!c.requests.contains_key(key));
        }
        assert(limit_for(c, path) == limit_for(s, path));
    }
}

/// Law: checks of one client on one path, all within one window of the
/// first and starting without a tracker, are accepted exactly while fewer
/// than the path's limit came before; a refused check does not count. Once
/// the window of the first check has passed, a check is accepted again.
pub proof fn law_checks_accepted_up_to_limit(s: ApiLimiterState, client: Seq<char>, path: Seq<char>, times: Seq<u64>, later: u64)
    requires
        !s.requests.contains_key(request_key(client, path)),
        limit_for(s, path) >= 1,
        times.len() > 0,
        forall|j: int| 0 <= j < times.len() ==> times[0] <= #[trigger] times[j] && times[j] - times[0] <= s.window_duration,
    ensures
        forall|j: int| 0 <= j < times.len() ==> (#[trigger] check_accepted(s, client, path, times, j) <==> j < limit_for(s, path)),
        later - times[0] > s.window_duration ==> check_step(run_checks(s, client, path, times), client, path, later).1,
{
    assert forall|j: int| 0 <= j < times.len() implies (#[trigger] check_accepted(s, client, path, times, j) <==> j < limit_for(s, path)) by {
        lemma_run_checks(s, client, path, times, j);
        let prev = run_checks(s, client, path, times.take(j));
        let key = request_key(client, path);
        let t = times[j];
        let c = after_cleanup(prev, t);
        if j > 0 {
            assert(in_window(prev.requests[key], t, prev.window_duration));
            assert(c.requests.contains_key(key) && c.requests[key] == prev.requests[key]);
        }
        assert(limit_for(c, path) == limit_for(s, path));
    }
    lemma_run_checks(s, client, path, times, times.len() as int);
    assert(times.take(times.len() as int) =~= times);
}

/// Law: a limit set for a path governs that path and no other, for every
/// client: later checks on the path count against the new limit.
pub proof fn law_path_limit_applies(s: ApiLimiterState, path: Seq<char>, limit: usize, other: Seq<char>)
    requires
        other != path,
    ensures
        limit_for(with_path_limit(s, path, limit), path) == limit,
        limit_for(with_path_limit(s, path, limit), other) == limit_for(s, other),
        with_path_limit(s, path, limit).requests == s.requests,
{
}

} // verus!
