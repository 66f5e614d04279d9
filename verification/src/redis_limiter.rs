//! Decisions of the distributed rate limiter whose counters live in Redis.
//!
//! The limiter keeps, per identifier, a count, the time of the first and last
//! attempt of the current window, and an optional block end, all in seconds
//! since the epoch. The functions here decide, from the values read from the
//! store, what is written back and what the caller is told; performing the
//! reads and writes is left to the caller.
use vstd::prelude::*;
use crate::error::AppError;
use crate::store::KeyedStore;
use crate::text::{owned, i64_to_string, dec_int};

verus! {

/// Settings of a rate limit. Durations are whole seconds.
#[derive(Debug, Clone)]
pub struct RateLimitConfig {
    pub max_attempts: usize,
    pub window_duration: u64,
    pub block_duration: Option<u64>,
    pub message_template: String,
}

impl RateLimitConfig {
    /// Five attempts per five minutes, then a fifteen-minute block.
    pub fn default() -> (c: Self)
        ensures
            c.max_attempts == 5,
            c.window_duration == 300,
            c.block_duration == Some(900u64),
            c.message_template@ == "Rate limit exceeded. Please try again later."@,
    {
        RateLimitConfig {
            max_attempts: 5,
            window_duration: 300,
            block_duration: Some(900),
            message_template: owned("Rate limit exceeded. Please try again later."),
        }
    }
}

impl RateLimitConfig {
    /// API requests: one hundred per minute, without blocking.
    pub fn api_defaults() -> (c: Self)
        ensures
            c.max_attempts == 100,
            c.window_duration == 60,
            c.block_duration is None,
            c.message_template@ == "API rate limit exceeded."@,
    {
        RateLimitConfig {
            max_attempts: 100,
            window_duration: 60,
            block_duration: None,
            message_template: owned("API rate limit exceeded."),
        }
    }

    /// Logins: five attempts per five minutes, then a fifteen-minute block.
    pub fn login_defaults() -> (c: Self)
        ensures
            c.max_attempts == 5,
            c.window_duration == 300,
            c.block_duration == Some(900u64),
            c.message_template@ == "Account protection: Too many login attempts. Your account has been temporarily locked for security."@,
    {
        RateLimitConfig {
            max_attempts: 5,
            window_duration: 300,
            block_duration: Some(900),
            message_template: owned("Account protection: Too many login attempts. Your account has been temporarily locked for security."),
        }
    }

    /// The same settings with another attempt limit.
    pub fn with_max_attempts(&self, max_attempts: usize) -> (c: Self)
        ensures
            c.max_attempts == max_attempts,
            c.window_duration == self.window_duration,
            c.block_duration == self.block_duration,
            c.message_template@ == self.message_template@,
    {
        RateLimitConfig {
            max_attempts,
            window_duration: self.window_duration,
            block_duration: self.block_duration,
            message_template: self.message_template.clone(),
        }
    }
}

/// A distributed rate limiter: the connection to the store, the default
/// settings, path-specific limits, and when it last cleaned up (milliseconds
/// on a monotonic clock; the cleanup interval is in milliseconds too).
pub struct RedisRateLimiter<C> {
    redis_manager: C,
    config: RateLimitConfig,
    last_cleanup: u64,
    cleanup_interval: u64,
    path_limits: KeyedStore<usize>,
}

impl<C> RedisRateLimiter<C> {
    #[verifier::type_invariant]
    spec fn inv(&self) -> bool {
        self.path_limits.wf()
    }

    /// The connection the limiter was built over.
    pub closed spec fn spec_connection(&self) -> C {
        self.redis_manager
    }

    /// The default settings.
    pub closed spec fn spec_config(&self) -> RateLimitConfig {
        self.config
    }

    /// Path-specific attempt limits.
    pub closed spec fn spec_path_limits(&self) -> Map<Seq<char>, usize> {
        self.path_limits.view()
    }

    /// Interval between cleanups.
    pub closed spec fn spec_cleanup_interval(&self) -> u64 {
        self.cleanup_interval
    }

    /// Time of the last cleanup.
    pub closed spec fn spec_last_cleanup(&self) -> u64 {
        self.last_cleanup
    }

    /// A limiter over an established connection, created at `now`, cleaning
    /// up every five minutes, with no path-specific limits.
    pub fn with_connection(redis_manager: C, config: RateLimitConfig, now: u64) -> (r: Self)
        ensures
            r.spec_connection() == redis_manager,
            r.spec_config() == config,
            r.spec_path_limits() == Map::<Seq<char>, usize>::empty(),
            r.spec_cleanup_interval() == 300_000,
            r.spec_last_cleanup() == now,
    {
        RedisRateLimiter { redis_manager, config, last_cleanup: now, cleanup_interval: 300_000, path_limits: KeyedStore::new() }
    }

    /// The connection to the store.
    pub fn connection(&self) -> (c: &C)
        ensures
            *c == self.spec_connection(),
    {
        &self.redis_manager
    }

    /// The default settings.
    pub fn config(&self) -> (c: &RateLimitConfig)
        ensures
            *c == self.spec_config(),
    {
        &self.config
    }

    /// Sets the cleanup interval.
    pub fn with_cleanup_interval(self, interval: u64) -> (r: Self)
        ensures
            r.spec_cleanup_interval() == interval,
            r.spec_config() == self.spec_config(),
            r.spec_path_limits() == self.spec_path_limits(),
            r.spec_last_cleanup() == self.spec_last_cleanup(),
    {
        proof {
            use_type_invariant(&self);
        }
        RedisRateLimiter { cleanup_interval: interval, ..self }
    }

    /// Replaces the path-specific limits by the given (path, limit) pairs.
    pub fn with_path_limits(self, path_limits: Vec<(String, usize)>) -> (r: Self)
        ensures
            r.spec_path_limits() == crate::store::map_of(path_limits@),
            r.spec_config() == self.spec_config(),
            r.spec_cleanup_interval() == self.spec_cleanup_interval(),
            r.spec_last_cleanup() == self.spec_last_cleanup(),
    {
        let mut limits = KeyedStore::new();
        let mut i: usize = 0;
        while i < path_limits.len()
            invariant
                i <= path_limits@.len(),
                limits.wf(),
                limits.view() == crate::store::map_of(path_limits@.take(i as int)),
            decreases path_limits.len() - i,
        {
            assert(path_limits@.take(i + 1).drop_last() =~= path_limits@.take(i as int));
            limits.insert(path_limits[i].0.as_str(), path_limits[i].1);
            i = i + 1;
        }
        assert(path_limits@.take(i as int) =~= path_limits@);
        RedisRateLimiter { path_limits: limits, ..self }
    }

    /// The limit for `path`: its own, or the default.
    pub fn get_limit_for_path(&self, path: &str) -> (l: usize)
        ensures
            l == (if self.spec_path_limits().contains_key(path@) {
                self.spec_path_limits()[path@]
            } else {
                self.spec_config().max_attempts
            }),
    {
        proof {
            use_type_invariant(self);
        }
        match self.path_limits.get(path) {
            Some(l) => *l,
            None => self.config.max_attempts,
        }
    }

    /// The settings that apply to `path`: the defaults with the path's limit.
    pub fn config_for_path(&self, path: &str) -> (c: RateLimitConfig)
        ensures
            c.max_attempts == (if self.spec_path_limits().contains_key(path@) {
                self.spec_path_limits()[path@]
            } else {
                self.spec_config().max_attempts
            }),
            c.window_duration == self.spec_config().window_duration,
            c.block_duration == self.spec_config().block_duration,
            c.message_template@ == self.spec_config().message_template@,
    {
        let limit = self.get_limit_for_path(path);
        self.config.with_max_attempts(limit)
    }

    /// Records a cleanup at `now` when the interval has passed since the last
    /// one; stored counters expire on their own, so nothing else is done.
    pub fn cleanup_if_needed(&mut self, now: u64) -> (done: bool)
        ensures
            done == (crate::login_limiter::elapsed(now, old(self).spec_last_cleanup()) >= old(self).spec_cleanup_interval()),
            final(self).spec_last_cleanup() == (if done { now } else { old(self).spec_last_cleanup() }),
            final(self).spec_config() == old(self).spec_config(),
            final(self).spec_path_limits() == old(self).spec_path_limits(),
            final(self).spec_cleanup_interval() == old(self).spec_cleanup_interval(),
    {
        proof {
            use_type_invariant(&*self);
        }
        let since = if now >= self.last_cleanup { now - self.last_cleanup } else { 0 };
        if since >= self.cleanup_interval {
            self.last_cleanup = now;
            true
        } else {
            false
        }
    }
}

/// What a client is told about its limit.
#[derive(Debug, Clone, Copy, PartialEq, Eq)]
pub struct RateLimitStatus {
    pub attempts: usize,
    pub limit: usize,
    pub remaining: usize,
    pub window_reset: i64,
    pub block_reset: Option<i64>,
    pub is_blocked: bool,
}

/// The window length as the limiter computes with it.
pub open spec fn window_secs(c: RateLimitConfig) -> int {
    c.window_duration as i64 as int
}

/// The value fits in an `i64`.
pub open spec fn fits_i64(x: int) -> bool {
    i64::MIN <= x <= i64::MAX
}

/// Message of a refused attempt that may be retried after `secs` seconds.
pub open spec fn retry_msg(template: Seq<char>, secs: int) -> Seq<char> {
    template + " Try again in "@ + dec_int(secs) + " seconds."@
}

/// The error that reports a failed read or write of the counters.
pub open spec fn is_tracking_error(e: AppError) -> bool {
    e is ServerError && e->ServerError_0@ == "Rate limit tracking error"@
}

fn tracking_error() -> (e: AppError)
    ensures
        is_tracking_error(e),
{
    AppError::ServerError(owned("Rate limit tracking error"))
}

fn retry_error(template: &String, secs: i64) -> (e: AppError)
    ensures
        e is RateLimitError,
        e->RateLimitError_0@ == retry_msg(template@, secs as int),
{
    let mut m = template.clone();
    m.append(" Try again in ");
    let n = i64_to_string(secs);
    m.append(n.as_str());
    m.append(" seconds.");
    AppError::RateLimitError(m)
}

/// Outcome of looking at the block entry.
#[derive(Debug, Clone)]
pub enum BlockCheck {
    /// Still blocked: the attempt is refused.
    Blocked(AppError),
    /// The block has ended: its entry is deleted and the check goes on.
    Expired,
    /// No block: the check goes on.
    Clear,
}

/// What a check writes and answers, decided from the counters.
#[derive(Debug, Clone)]
pub enum AttemptPlan {
    /// Start a new window: count 1, first and last attempt `now`, each entry
    /// expiring after `ttl` seconds. The attempt is allowed.
    Reset { now: i64, ttl: i64 },
    /// Increment the count and set the last attempt to `now`, expiring after
    /// `ttl` seconds. The attempt is allowed.
    Count { now: i64, ttl: u64 },
    /// Block until `until`, the entry expiring after `ttl` seconds, and refuse.
    Block { until: i64, ttl: u64, error: AppError },
    /// Refuse without writing anything.
    Reject(AppError),
}

/// The values that a check reads stay within `i64` arithmetic.
pub open spec fn check_in_range(now: i64, count: Option<usize>, first: Option<i64>, c: RateLimitConfig) -> bool {
    (count is Some && first is Some) ==> {
        let elapsed = now - first->0;
        &&& fits_i64(elapsed)
        &&& (elapsed < window_secs(c) && count->0 >= c.max_attempts) ==> match c.block_duration {
            Some(b) => fits_i64(now + (b as i64)),
            None => fits_i64(window_secs(c) - elapsed),
        }
    }
}

/// `p` is the plan of a check at `now`, given the stored count and first attempt.
pub open spec fn plan_is(p: AttemptPlan, now: i64, count: Option<usize>, first: Option<i64>, c: RateLimitConfig) -> bool {
    let ws = c.window_duration as i64;
    if count is Some && first is Some {
        let elapsed = now - first->0;
        if elapsed >= ws {
            p == AttemptPlan::Reset { now, ttl: ws }
        } else if count->0 >= c.max_attempts {
            match c.block_duration {
                Some(b) => {
                    let bs = b as i64;
                    p matches AttemptPlan::Block { until, ttl, error } && until == now + bs
                        && ttl == bs as u64 && error is RateLimitError
                        && error->RateLimitError_0@ == retry_msg(c.message_template@, bs as int)
                },
                None => p matches AttemptPlan::Reject(e) && e is RateLimitError
                    && e->RateLimitError_0@ == retry_msg(c.message_template@, ws - elapsed),
            }
        } else {
            p == AttemptPlan::Count { now, ttl: ws as u64 }
        }
    } else {
        p == AttemptPlan::Reset { now, ttl: ws }
    }
}

/// `b` is the outcome of looking at the block entry at `now`.
pub open spec fn block_check_is(b: BlockCheck, now: i64, blocked_until: Option<i64>, c: RateLimitConfig) -> bool {
    match blocked_until {
        Some(u) => if now < u {
            b matches BlockCheck::Blocked(e) && e is RateLimitError
                && e->RateLimitError_0@ == retry_msg(c.message_template@, u - now)
        } else {
            b is Expired
        },
        None => b is Clear,
    }
}

/// The answer of a check once the plan's writes have been made (`writes_ok`)
/// or have failed.
pub open spec fn outcome_is(r: Result<(), AppError>, p: AttemptPlan, writes_ok: bool) -> bool {
    match p {
        AttemptPlan::Reject(e) => r == Err::<(), AppError>(e),
        AttemptPlan::Block { error, .. } => if writes_ok { r == Err::<(), AppError>(error) } else {
            r matches Err(e) && is_tracking_error(e)
        },
        _ => if writes_ok { r is Ok } else { r matches Err(e) && is_tracking_error(e) },
    }
}

/// The status at `now`, given the stored count, first attempt and block end.
pub open spec fn status_is(st: RateLimitStatus, now: i64, count: Option<usize>, first: Option<i64>, blocked_until: Option<i64>, c: RateLimitConfig) -> bool {
    let ws = c.window_duration as i64;
    if count is Some && first is Some && now - first->0 < ws {
        let n = count->0;
        &&& st.attempts == n
        &&& st.limit == c.max_attempts
        &&& st.remaining == (if n >= c.max_attempts { 0 } else { (c.max_attempts - n) as usize })
        &&& st.window_reset == ws - (now - first->0)
        &&& st.is_blocked == (blocked_until is Some && now < blocked_until->0)
        &&& st.block_reset == (if blocked_until is Some && now < blocked_until->0 {
            Some((blocked_until->0 - now) as i64)
        } else {
            None::<i64>
        })
    } else {
        st == RateLimitStatus {
            attempts: 0,
            limit: c.max_attempts,
            remaining: c.max_attempts,
            window_reset: 0,
            block_reset: None,
            is_blocked: false,
        }
    }
}

/// The values that a status query reads stay within `i64` arithmetic.
pub open spec fn status_in_range(now: i64, count: Option<usize>, first: Option<i64>, blocked_until: Option<i64>, c: RateLimitConfig) -> bool {
    &&& (count is Some && first is Some) ==> fits_i64(now - first->0)
        && (now - first->0 < c.window_duration as i64 ==> fits_i64(c.window_duration as i64 - (now - first->0)))
    &&& blocked_until matches Some(u) ==> fits_i64(u - now)
}

/// Stored count as read back (`str::parse::<usize>`; unreadable values count as absent).
pub fn parse_count(raw: &Option<String>) -> (r: Option<usize>)
    ensures
        raw is None ==> r is None,
        raw matches Some(s) ==> (r is Some <==> crate::text::parse_unsigned(s@, usize::MAX as nat) is Some)
            && (r matches Some(x) ==> x as nat == crate::text::parse_unsigned(s@, usize::MAX as nat)->0),
{
    match raw {
        Some(s) => crate::text::parse_usize(s.as_str()),
        None => None,
    }
}

/// Stored timestamp as read back (`str::parse::<i64>`; unreadable values count as absent).
pub fn parse_timestamp(raw: &Option<String>) -> (r: Option<i64>)
    ensures
        raw is None ==> r is None,
        raw matches Some(s) ==> (r is Some <==> crate::text::parse_i64_spec(s@) is Some)
            && (r matches Some(x) ==> x as int == crate::text::parse_i64_spec(s@)->0),
{
    match raw {
        Some(s) => crate::text::parse_i64(s.as_str()),
        None => None,
    }
}

/// Decides from the block entry whether the attempt is refused outright.
pub fn check_block(now: i64, blocked_until: Option<i64>, config: &RateLimitConfig) -> (b: BlockCheck)
    requires
        blocked_until matches Some(u) ==> fits_i64(u - now),
    ensures
        block_check_is(b, now, blocked_until, *config),
{
    match blocked_until {
        Some(u) => {
            if now < u {
                BlockCheck::Blocked(retry_error(&config.message_template, u - now))
            } else {
                BlockCheck::Expired
            }
        },
        None => BlockCheck::Clear,
    }
}

/// Decides, from the stored count and first attempt, what a check writes and answers.
pub fn plan_attempt(now: i64, count: Option<usize>, first: Option<i64>, config: &RateLimitConfig) -> (p: AttemptPlan)
    requires
        check_in_range(now, count, first, *config),
    ensures
        plan_is(p, now, count, first, *config),
{
    let ws = config.window_duration as i64;
    match (count, first) {
        (Some(n), Some(f)) => {
            let elapsed = now - f;
            if elapsed >= ws {
                AttemptPlan::Reset { now, ttl: ws }
            } else if n >= config.max_attempts {
                match config.block_duration {
                    Some(b) => {
                        let bs = b as i64;
                        AttemptPlan::Block {
                            until: now + bs,
                            ttl: bs as u64,
                            error: retry_error(&config.message_template, bs),
                        }
                    },
                    None => AttemptPlan::Reject(retry_error(&config.message_template, ws - elapsed)),
                }
            } else {
                AttemptPlan::Count { now, ttl: ws as u64 }
            }
        },
        _ => AttemptPlan::Reset { now, ttl: ws },
    }
}

/// The answer of a check once the plan's writes have been made or have failed.
pub fn attempt_outcome(plan: AttemptPlan, writes_ok: bool) -> (r: Result<(), AppError>)
    ensures
        outcome_is(r, plan, writes_ok),
{
    match plan {
        AttemptPlan::Reject(e) => Err(e),
        AttemptPlan::Block { error, .. } => {
            if writes_ok { Err(error) } else { Err(tracking_error()) }
        },
        _ => {
            if writes_ok { Ok(()) } else { Err(tracking_error()) }
        },
    }
}

/// What recording a failure writes: a fresh window when either counter is
/// missing, otherwise an increment of the count and a new last attempt.
#[derive(Debug, Clone, Copy, PartialEq, Eq)]
pub enum FailurePlan {
    Reset { now: i64, ttl: i64 },
    Count { now: i64, ttl: u64 },
}

/// Decides what recording a failed attempt writes.
pub fn plan_failure(now: i64, count: Option<usize>, first: Option<i64>, config: &RateLimitConfig) -> (p: FailurePlan)
    ensures
        p == (if count is None || first is None {
            FailurePlan::Reset { now, ttl: config.window_duration as i64 }
        } else {
            FailurePlan::Count { now, ttl: config.window_duration as i64 as u64 }
        }),
{
    let ws = config.window_duration as i64;
    if count.is_none() || first.is_none() {
        FailurePlan::Reset { now, ttl: ws }
    } else {
        FailurePlan::Count { now, ttl: ws as u64 }
    }
}

/// What recording a success writes: a new last attempt, or the removal of all
/// of the identifier's entries when the counter is reset.
#[derive(Debug, Clone, Copy, PartialEq, Eq)]
pub enum SuccessPlan {
    TouchLast { now: i64, ttl: u64 },
    Clear,
}

/// Decides what recording a successful attempt writes.
pub fn plan_success(now: i64, reset: bool, config: &RateLimitConfig) -> (p: SuccessPlan)
    ensures
        p == (if reset { SuccessPlan::Clear } else { SuccessPlan::TouchLast { now, ttl: config.window_duration as i64 as u64 } }),
{
    if reset {
        SuccessPlan::Clear
    } else {
        SuccessPlan::TouchLast { now, ttl: config.window_duration as i64 as u64 }
    }
}

/// The answer of a write that can only fail with a tracking error.
pub fn write_outcome(writes_ok: bool) -> (r: Result<(), AppError>)
    ensures
        writes_ok ==> r is Ok,
        !writes_ok ==> (r matches Err(e) && is_tracking_error(e)),
{
    if writes_ok { Ok(()) } else { Err(tracking_error()) }
}

/// The status of an identifier at `now`, or `None` when the store could not be read.
pub fn get_limit_status_with_config(
    now: i64,
    read: Option<(Option<usize>, Option<i64>, Option<i64>)>,
    config: &RateLimitConfig,
) -> (r: Option<RateLimitStatus>)
    requires
        read matches Some(v) ==> status_in_range(now, v.0, v.1, v.2, *config),
    ensures
        read is None ==> r is None,
        read matches Some(v) ==> (r matches Some(st) && status_is(st, now, v.0, v.1, v.2, *config)),
{
    match read {
        None => None,
        Some((count, first, blocked_until)) => {
            let ws = config.window_duration as i64;
            match (count, first) {
                (Some(n), Some(f)) => {
                    let elapsed = now - f;
                    if elapsed < ws {
                        let remaining = if n >= config.max_attempts { 0 } else { config.max_attempts - n };
                        let (block_reset, is_blocked) = match blocked_until {
                            Some(u) => if now < u { (Some(u - now), true) } else { (None, false) },
                            None => (None, false),
                        };
                        return Some(RateLimitStatus {
                            attempts: n,
                            limit: config.max_attempts,
                            remaining,
                            window_reset: ws - elapsed,
                            block_reset,
                            is_blocked,
                        });
                    }
                },
                _ => {},
            }
            Some(RateLimitStatus {
                attempts: 0,
                limit: config.max_attempts,
                remaining: config.max_attempts,
                window_reset: 0,
                block_reset: None,
                is_blocked: false,
            })
        },
    }
}

/// Law: an attempt is only counted while the count is below the limit, so
/// the stored count never exceeds `max_attempts` through checks.
pub proof fn law_counted_attempts_stay_within_limit(p: AttemptPlan, now: i64, count: Option<usize>, first: Option<i64>, c: RateLimitConfig)
    requires
        plan_is(p, now, count, first, c),
        p is Count,
    ensures
        count is Some && count->0 < c.max_attempts,
{
}

/// Law: an identifier whose block has not ended is refused, and one whose
/// block has ended is not refused on account of the block.
pub proof fn law_block_refuses_until_it_ends(b: BlockCheck, now: i64, until: i64, c: RateLimitConfig)
    requires
        block_check_is(b, now, Some(until), c),
    ensures
        (b is Blocked) <==> now < until,
{
}

/// Law: exceeding the limit inside the window with a block duration set
/// blocks the identifier for exactly that duration, and the status then
/// reports it as blocked.
pub proof fn law_exceeding_blocks(p: AttemptPlan, now: i64, n: usize, first: i64, c: RateLimitConfig, later: i64)
    requires
        plan_is(p, now, Some(n), Some(first), c),
        now - first < c.window_duration as i64,
        n >= c.max_attempts,
        c.block_duration is Some,
        c.block_duration->0 as i64 > 0,
        now <= later,
        fits_i64(now + (c.block_duration->0 as i64)),
        later < now + (c.block_duration->0 as i64),
    ensures
        p matches AttemptPlan::Block { until, .. } && later < until,
{
}

/// Law: the status and the block check agree on whether an identifier is blocked.
pub proof fn law_status_agrees_with_block(st: RateLimitStatus, b: BlockCheck, now: i64, n: usize, first: i64, until: i64, c: RateLimitConfig)
    requires
        status_is(st, now, Some(n), Some(first), Some(until), c),
        block_check_is(b, now, Some(until), c),
        now - first < c.window_duration as i64,
    ensures
        st.is_blocked <==> b is Blocked,
{
}

/// What the store holds for one identifier, as checks read and write it.
#[verifier::ext_equal]
pub struct StoredCounters {
    pub count: Option<usize>,
    pub first: Option<i64>,
    pub blocked_until: Option<i64>,
}

/// The counters after the writes of plan `p` (a `Reject` writes nothing).
pub open spec fn plan_writes(s: StoredCounters, p: AttemptPlan) -> StoredCounters {
    match p {
        AttemptPlan::Reset { now, .. } => StoredCounters { count: Some(1), first: Some(now), ..s },
        AttemptPlan::Count { .. } => StoredCounters { count: Some((s.count->0 + 1) as usize), ..s },
        AttemptPlan::Block { until, .. } => StoredCounters { blocked_until: Some(until), ..s },
        AttemptPlan::Reject(_) => s,
    }
}

/// One check at `now` when every read and write succeeds: the counters
/// afterwards, and whether the attempt is allowed. A running block refuses
/// and changes nothing; an ended block is deleted and the counters decide.
pub open spec fn check_effect(s: StoredCounters, now: i64, c: RateLimitConfig) -> (StoredCounters, bool) {
    if s.blocked_until is Some && now < s.blocked_until->0 {
        (s, false)
    } else {
        let s1 = StoredCounters { blocked_until: None, ..s };
        if s1.count is Some && s1.first is Some && now - s1.first->0 < window_secs(c) {
            if s1.count->0 >= c.max_attempts {
                match c.block_duration {
                    Some(b) => (StoredCounters { blocked_until: Some((now + (b as i64)) as i64), ..s1 }, false),
                    None => (s1, false),
                }
            } else {
                (StoredCounters { count: Some((s1.count->0 + 1) as usize), ..s1 }, true)
            }
        } else {
            (StoredCounters { count: Some(1), first: Some(now), ..s1 }, true)
        }
    }
}

/// Law: `check_effect` is what a check does: when the block entry does not
/// refuse, the counters after the plan's writes are `check_effect`'s, and
/// the check answers `Ok` (all writes made) exactly when `check_effect`
/// allows the attempt; a running block refuses as `check_effect` does.
pub proof fn law_check_effect_is_the_check(
    s: StoredCounters,
    now: i64,
    c: RateLimitConfig,
    b: BlockCheck,
    p: AttemptPlan,
    r: Result<(), AppError>,
)
    requires
        block_check_is(b, now, s.blocked_until, c),
        !(b is Blocked) ==> plan_is(p, now, s.count, s.first, c) && outcome_is(r, p, true),
        s.count is Some && s.first is Some && now - s.first->0 < window_secs(c) && s.count->0 >= c.max_attempts
            && c.block_duration is Some ==> fits_i64(now + (c.block_duration->0 as i64)),
    ensures
        (b is Blocked) <==> (s.blocked_until is Some && now < s.blocked_until->0),
        (b is Blocked) ==> !check_effect(s, now, c).1 && check_effect(s, now, c).0 == s,
        !(b is Blocked) ==> plan_writes(StoredCounters { blocked_until: None, ..s }, p) == check_effect(s, now, c).0
            && ((r is Ok) <==> check_effect(s, now, c).1),
{
}

/// The counters after checks at each of `times`, in order, all writes made.
pub open spec fn run_store_checks(s: StoredCounters, times: Seq<i64>, c: RateLimitConfig) -> StoredCounters
    decreases times.len(),
{
    if times.len() == 0 {
        s
    } else {
        check_effect(run_store_checks(s, times.drop_last(), c), times.last(), c).0
    }
}

/// Whether the check at `times[j]`, after those at `times[0..j]`, is allowed.
pub open spec fn store_check_allowed(s: StoredCounters, times: Seq<i64>, c: RateLimitConfig, j: int) -> bool {
    check_effect(run_store_checks(s, times.take(j), c), times[j], c).1
}

/// The counters that `k` checks within one window leave behind for an
/// identifier with nothing stored.
proof fn lemma_store_checks(times: Seq<i64>, c: RateLimitConfig, k: int)
    requires
        0 <= k <= times.len(),
        c.max_attempts >= 1,
        c.block_duration is Some,
        c.block_duration->0 <= i64::MAX,
        forall|j: int| 0 <= j < times.len() ==> #[trigger] times[j] - times[0] < window_secs(c)
            && fits_i64(times[j] + (c.block_duration->0 as i64)),
    ensures
        ({
            let st = run_store_checks(StoredCounters { count: None, first: None, blocked_until: None }, times.take(k), c);
            &&& k == 0 ==> st == StoredCounters { count: None, first: None, blocked_until: None }
            &&& 0 < k <= c.max_attempts ==> st == StoredCounters { count: Some(k as usize), first: Some(times[0]), blocked_until: None }
            &&& k > c.max_attempts ==> st.count == Some(c.max_attempts) && st.first == Some(times[0]) && st.blocked_until is Some
        }),
    decreases k,
{
    if k > 0 {
        lemma_store_checks(times, c, k - 1);
        assert(times.take(k).drop_last() =~= times.take(k - 1));
        assert(times.take(k).last() == times[k - 1]);
        assert(times[k - 1] - times[0] < window_secs(c));
    }
}

/// Law: for an identifier with nothing stored and a block duration set,
/// checks all within one window of the first, every write made, are allowed
/// exactly while fewer than `max_attempts` came before. The check after
/// `max_attempts` allowed ones finds the count at the limit inside the
/// window, so its plan blocks for the block duration with the retry message
/// of that duration; every later check in the window is refused, whether the
/// block is still running or has ended and is set again.
pub proof fn law_checks_allowed_up_to_limit(times: Seq<i64>, c: RateLimitConfig)
    requires
        c.max_attempts >= 1,
        c.block_duration is Some,
        c.block_duration->0 <= i64::MAX,
        forall|j: int| 0 <= j < times.len() ==> #[trigger] times[j] - times[0] < window_secs(c)
            && fits_i64(times[j] + (c.block_duration->0 as i64)),
    ensures
        forall|j: int| 0 <= j < times.len() ==>
            (#[trigger] store_check_allowed(StoredCounters { count: None, first: None, blocked_until: None }, times, c, j)
                <==> j < c.max_attempts),
        c.max_attempts < times.len() ==> run_store_checks(StoredCounters { count: None, first: None, blocked_until: None },
            times.take(c.max_attempts as int), c) == (StoredCounters { count: Some(c.max_attempts), first: Some(times[0]), blocked_until: None }),
{
    let empty = StoredCounters { count: None, first: None, blocked_until: None };
    assert forall|j: int| 0 <= j < times.len() implies
        (#[trigger] store_check_allowed(empty, times, c, j) <==> j < c.max_attempts) by {
        lemma_store_checks(times, c, j);
        assert(times[j] - times[0] < window_secs(c));
    }
    if c.max_attempts < times.len() {
        lemma_store_checks(times, c, c.max_attempts as int);
    }
}

} // verus!
