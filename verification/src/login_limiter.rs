//! Rate limiting of login attempts per identifier: after `max_attempts`
//! failures the identifier is locked out until `lockout_duration` has passed
//! since the last failure; a successful login clears the record.
//!
//! Times are milliseconds on a monotonic clock; durations are milliseconds.
use vstd::prelude::*;
use crate::error::AppError;
use crate::store::KeyedStore;
use crate::text::{owned, u64_to_string, dec};

verus! {

/// Failed attempts recorded for one identifier.
#[derive(Debug, Clone, Copy, PartialEq, Eq)]
pub struct LoginAttempt {
    pub attempts: usize,
    pub first_attempt: u64,
    pub last_attempt: u64,
}

/// Time passed from `t` to `now`, zero when `t` is later (as `Instant::duration_since`).
pub open spec fn elapsed(now: u64, t: u64) -> u64 {
    if now >= t { (now - t) as u64 } else { 0 }
}

/// Settings of a login rate limiter.
#[derive(Debug, Clone, Copy, PartialEq, Eq)]
pub struct LoginLimits {
    pub max_attempts: usize,
    pub window_duration: u64,
    pub lockout_duration: u64,
}

/// A record survives cleanup while its window is open or while it is locked out.
pub open spec fn keeps(a: LoginAttempt, now: u64, l: LoginLimits) -> bool {
    elapsed(now, a.first_attempt) < l.window_duration
        || (a.attempts >= l.max_attempts && elapsed(now, a.last_attempt) < l.lockout_duration)
}

/// The records that survive cleanup at `now`.
pub open spec fn cleaned(m: Map<Seq<char>, LoginAttempt>, now: u64, l: LoginLimits) -> Map<Seq<char>, LoginAttempt> {
    m.restrict(m.dom().filter(|k: Seq<char>| keeps(m[k], now, l)))
}

/// The identifier is locked out at `now` in table `m`.
pub open spec fn locked(m: Map<Seq<char>, LoginAttempt>, id: Seq<char>, now: u64, l: LoginLimits) -> bool {
    m.contains_key(id) && m[id].attempts >= l.max_attempts && elapsed(now, m[id].last_attempt) < l.lockout_duration
}

/// Seconds of lockout left for a locked identifier.
pub open spec fn lockout_secs_left(a: LoginAttempt, now: u64, l: LoginLimits) -> nat {
    ((l.lockout_duration - elapsed(now, a.last_attempt)) / 1000) as nat
}

/// Message of a refused login attempt.
pub open spec fn lockout_msg(secs: nat) -> Seq<char> {
    "Too many login attempts. Please try again in "@ + dec(secs) + " seconds"@
}

/// The table after a check at `now`: cleaned, and with an expired lockout record removed.
pub open spec fn after_check(m: Map<Seq<char>, LoginAttempt>, id: Seq<char>, now: u64, l: LoginLimits) -> Map<Seq<char>, LoginAttempt> {
    let c = cleaned(m, now, l);
    if c.contains_key(id) && c[id].attempts >= l.max_attempts && !locked(c, id, now, l) {
        c.remove(id)
    } else {
        c
    }
}

/// The table after a failure of `id` at `now`.
pub open spec fn after_failure(m: Map<Seq<char>, LoginAttempt>, id: Seq<char>, now: u64) -> Map<Seq<char>, LoginAttempt> {
    if m.contains_key(id) {
        m.insert(id, LoginAttempt { attempts: (m[id].attempts + 1) as usize, first_attempt: m[id].first_attempt, last_attempt: now })
    } else {
        m.insert(id, LoginAttempt { attempts: 1, first_attempt: now, last_attempt: now })
    }
}

/// Rate limiter for login attempts.
pub struct LoginRateLimiter {
    attempts: KeyedStore<LoginAttempt>,
    limits: LoginLimits,
}

impl LoginRateLimiter {
    #[verifier::type_invariant]
    spec fn inv(&self) -> bool {
        self.attempts.wf()
    }

    /// Recorded attempts per identifier.
    pub closed spec fn view(&self) -> Map<Seq<char>, LoginAttempt> {
        self.attempts.view()
    }

    /// The limiter's settings.
    pub closed spec fn spec_limits(&self) -> LoginLimits {
        self.limits
    }

    /// A limiter with no records.
    pub fn new(max_attempts: usize, window_duration: u64, lockout_duration: u64) -> (r: Self)
        ensures
            r@ == Map::<Seq<char>, LoginAttempt>::empty(),
            r.spec_limits() == (LoginLimits { max_attempts, window_duration, lockout_duration }),
    {
        LoginRateLimiter {
            attempts: KeyedStore::new(),
            limits: LoginLimits { max_attempts, window_duration, lockout_duration },
        }
    }

    /// Five attempts within five minutes, then a fifteen-minute lockout.
    pub fn default() -> (r: Self)
        ensures
            r@ == Map::<Seq<char>, LoginAttempt>::empty(),
            r.spec_limits() == (LoginLimits { max_attempts: 5, window_duration: 300_000, lockout_duration: 900_000 }),
    {
        Self::new(5, 5 * 60 * 1000, 15 * 60 * 1000)
    }

    /// The limiter's settings.
    pub fn limits(&self) -> (l: LoginLimits)
        ensures
            l == self.spec_limits(),
    {
        self.limits
    }

    /// Checks whether `identifier` may attempt a login at `now`. Stale records
    /// are dropped; a locked identifier is refused with the seconds left.
    pub fn check_rate_limit(&mut self, identifier: &str, now: u64) -> (r: Result<(), AppError>)
        ensures
            final(self).spec_limits() == old(self).spec_limits(),
            final(self)@ == after_check(old(self)@, identifier@, now, old(self).spec_limits()),
            r is Ok <==> !locked(cleaned(old(self)@, now, old(self).spec_limits()), identifier@, now, old(self).spec_limits()),
            r matches Err(e) ==> e is AuthenticationError
                && e->AuthenticationError_0@ == lockout_msg(lockout_secs_left(old(self)@[identifier@], now, old(self).spec_limits())),
    {
        proof {
            use_type_invariant(&*self);
        }
        let l = self.limits;
        let ghost m = self@;
        let keep = |a: &LoginAttempt| -> (b: bool)
            ensures
                b == keeps(*a, now, l),
        {
            let since_first = if now >= a.first_attempt { now - a.first_attempt } else { 0 };
            let since_last = if now >= a.last_attempt { now - a.last_attempt } else { 0 };
            since_first < l.window_duration || (a.attempts >= l.max_attempts && since_last < l.lockout_duration)
        };
        let mut store = KeyedStore::new();
        std::mem::swap(&mut store, &mut self.attempts);
        store.retain(keep, Ghost(|a: LoginAttempt| keeps(a, now, l)));
        assert(store.view() =~= cleaned(m, now, l));
        let mut result: Result<(), AppError> = Ok(());
        match store.get(identifier) {
            Some(a) => {
                if a.attempts >= l.max_attempts {
                    let since_last = if now >= a.last_attempt { now - a.last_attempt } else { 0 };
                    if since_last < l.lockout_duration {
                        let secs = (l.lockout_duration - since_last) / 1000;
                        let mut msg = owned("Too many login attempts. Please try again in ");
                        let n = u64_to_string(secs);
                        msg.append(n.as_str());
                        msg.append(" seconds");
                        result = Err(AppError::AuthenticationError(msg));
                    } else {
                        store.remove(identifier);
                    }
                }
            },
            None => {},
        }
        self.attempts = store;
        result
    }

    /// Records a failed login of `identifier` at `now`.
    pub fn record_failed_attempt(&mut self, identifier: &str, now: u64)
        requires
            old(self)@.contains_key(identifier@) ==> old(self)@[identifier@].attempts < usize::MAX,
        ensures
            final(self).spec_limits() == old(self).spec_limits(),
            final(self)@ == after_failure(old(self)@, identifier@, now),
    {
        proof {
            use_type_invariant(&*self);
        }
        let mut store = KeyedStore::new();
        std::mem::swap(&mut store, &mut self.attempts);
        let updated = match store.get(identifier) {
            Some(a) => LoginAttempt { attempts: a.attempts + 1, first_attempt: a.first_attempt, last_attempt: now },
            None => LoginAttempt { attempts: 1, first_attempt: now, last_attempt: now },
        };
        store.insert(identifier, updated);
        self.attempts = store;
    }

    /// Records a successful login: the identifier's record is cleared.
    pub fn record_successful_attempt(&mut self, identifier: &str)
        ensures
            final(self).spec_limits() == old(self).spec_limits(),
            final(self)@ == old(self)@.remove(identifier@),
    {
        proof {
            use_type_invariant(&*self);
        }
        let mut store = KeyedStore::new();
        std::mem::swap(&mut store, &mut self.attempts);
        store.remove(identifier);
        self.attempts = store;
    }
}

/// The table after failures of `id` at each of `times`, in order.
pub open spec fn after_failures(m: Map<Seq<char>, LoginAttempt>, id: Seq<char>, times: Seq<u64>) -> Map<Seq<char>, LoginAttempt>
    decreases times.len(),
{
    if times.len() == 0 {
        m
    } else {
        after_failure(after_failures(m, id, times.drop_last()), id, times.last())
    }
}

proof fn lemma_failures_count(m: Map<Seq<char>, LoginAttempt>, id: Seq<char>, times: Seq<u64>)
    requires
        !m.contains_key(id),
        times.len() <= usize::MAX,
    ensures
        times.len() == 0 ==> after_failures(m, id, times) == m,
        times.len() > 0 ==> after_failures(m, id, times).contains_key(id)
            && after_failures(m, id, times)[id].attempts == times.len()
            && after_failures(m, id, times)[id].last_attempt == times.last(),
    decreases times.len(),
{
    if times.len() > 0 {
        lemma_failures_count(m, id, times.drop_last());
    }
}

/// Law: a failure adds one attempt and moves the last attempt to `now`; for
/// an identifier with a record it keeps the time of the record's first
/// failure, and for one without it starts a record whose first failure is
/// `now`. Other identifiers are untouched.
pub proof fn law_failure_keeps_first_attempt(m: Map<Seq<char>, LoginAttempt>, id: Seq<char>, now: u64, other: Seq<char>)
    requires
        m.contains_key(id) ==> m[id].attempts < usize::MAX,
        other != id,
    ensures
        after_failure(m, id, now).contains_key(id),
        after_failure(m, id, now)[id].last_attempt == now,
        m.contains_key(id) ==> after_failure(m, id, now)[id].first_attempt == m[id].first_attempt
            && after_failure(m, id, now)[id].attempts == m[id].attempts + 1,
        !m.contains_key(id) ==> after_failure(m, id, now)[id].first_attempt == now
            && after_failure(m, id, now)[id].attempts == 1,
        after_failure(m, id, now).contains_key(other) == m.contains_key(other),
        m.contains_key(other) ==> after_failure(m, id, now)[other] == m[other],
{
}

/// Law: at a check, a record whose first failure lies a whole window or more
/// in the past is dropped unless it is locked out, so failures are only
/// counted within one window from the first of them.
pub proof fn law_stale_record_dropped(m: Map<Seq<char>, LoginAttempt>, id: Seq<char>, now: u64, l: LoginLimits)
    requires
        m.contains_key(id),
        now >= m[id].first_attempt,
        now - m[id].first_attempt >= l.window_duration,
        !(m[id].attempts >= l.max_attempts && elapsed(now, m[id].last_attempt) < l.lockout_duration),
    ensures
        !after_check(m, id, now, l).contains_key(id),
        !locked(cleaned(m, now, l), id, now, l),
{
}

/// Law: two failures, each after a check, the second within the window of
/// the first, leave a record of two attempts counted from the first failure;
/// a check a whole window after the first failure drops it (when two
/// failures do not lock), however recent the second failure is.
pub proof fn law_window_counts_from_first_failure(m: Map<Seq<char>, LoginAttempt>, id: Seq<char>, t0: u64, t1: u64, t2: u64, l: LoginLimits)
    requires
        !m.contains_key(id),
        l.max_attempts > 2,
        t0 <= t1,
        t1 - t0 < l.window_duration,
        t1 <= t2,
        t2 - t0 >= l.window_duration,
    ensures
        ({
            let s1 = after_failure(after_check(m, id, t0, l), id, t0);
            let s2 = after_failure(after_check(s1, id, t1, l), id, t1);
            &&& s2[id] == (LoginAttempt { attempts: 2, first_attempt: t0, last_attempt: t1 })
            &&& !after_check(s2, id, t2, l).contains_key(id)
        }),
{
    let s0 = after_check(m, id, t0, l);
    assert(!cleaned(m, t0, l).contains_key(id));
    assert(!s0.contains_key(id));
    let s1 = after_failure(s0, id, t0);
    assert(keeps(s1[id], t1, l));
    assert(cleaned(s1, t1, l).contains_key(id));
    assert(cleaned(s1, t1, l)[id] == s1[id]);
}

/// Law: an identifier that is locked out at `now` is refused at `now`; the
/// cleanup that precedes a check never drops a running lockout.
pub proof fn law_locked_identifier_is_refused(m: Map<Seq<char>, LoginAttempt>, id: Seq<char>, now: u64, l: LoginLimits)
    requires
        locked(m, id, now, l),
    ensures
        locked(cleaned(m, now, l), id, now, l),
        cleaned(m, now, l)[id] == m[id],
{
}

/// Law: once `max_attempts` or more failures have been recorded for an
/// identifier with no record (as after a successful login), the next check is
/// refused as long as less than the lockout duration has passed since the
/// last failure, and it reports the whole seconds of lockout left.
pub proof fn law_max_failures_lock_out(m: Map<Seq<char>, LoginAttempt>, id: Seq<char>, times: Seq<u64>, now: u64, l: LoginLimits)
    requires
        !m.contains_key(id),
        l.max_attempts > 0,
        l.max_attempts <= times.len() <= usize::MAX,
        now >= times.last(),
        now - times.last() < l.lockout_duration,
    ensures
        locked(cleaned(after_failures(m, id, times), now, l), id, now, l),
        cleaned(after_failures(m, id, times), now, l)[id] == after_failures(m, id, times)[id],
        lockout_secs_left(after_failures(m, id, times)[id], now, l) == ((l.lockout_duration - (now - times.last())) / 1000) as nat,
{
    lemma_failures_count(m, id, times);
}

/// Law: fewer failures than `max_attempts` never lock an identifier out.
pub proof fn law_below_max_not_locked(m: Map<Seq<char>, LoginAttempt>, id: Seq<char>, times: Seq<u64>, now: u64, l: LoginLimits)
    requires
        !m.contains_key(id),
        times.len() < l.max_attempts,
    ensures
        !locked(cleaned(after_failures(m, id, times), now, l), id, now, l),
{
    lemma_failures_count(m, id, times);
}

/// Law: after a successful login the identifier is not locked out.
pub proof fn law_success_clears_lockout(m: Map<Seq<char>, LoginAttempt>, id: Seq<char>, now: u64, l: LoginLimits)
    ensures
        !locked(cleaned(m.remove(id), now, l), id, now, l),
{
}

/// Law: when the lockout has run out, the check passes and forgets the record.
pub proof fn law_lockout_expires(m: Map<Seq<char>, LoginAttempt>, id: Seq<char>, now: u64, l: LoginLimits)
    requires
        m.contains_key(id),
        m[id].attempts >= l.max_attempts,
        elapsed(now, m[id].last_attempt) >= l.lockout_duration,
    ensures
        !locked(cleaned(m, now, l), id, now, l),
        !after_check(m, id, now, l).contains_key(id),
{
}

} // verus!
