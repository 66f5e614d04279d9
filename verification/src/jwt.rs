//! The claims of the service's session tokens and when they are issued and expire.
use vstd::prelude::*;
use crate::text::owned;

verus! {

/// The claims of a session token: subject, expiry and issue times (Unix
/// seconds) and the user name.
#[derive(Debug, Clone)]
pub struct Claims {
    pub sub: String,
    pub exp: i64,
    pub iat: i64,
    pub username: String,
}

/// The earliest time a UTC date-time of `chrono` can hold, in Unix seconds.
pub const MIN_TIMESTAMP: i64 = -8_334_601_228_800;

/// The latest time a UTC date-time of `chrono` can hold, in Unix seconds.
pub const MAX_TIMESTAMP: i64 = 8_210_266_876_799;

/// The claims of a token for `user_id` issued at `now` and valid for `expiry_hours`.
pub fn claims_at(user_id: &str, username: &str, now: i64, expiry_hours: u64) -> (c: Claims)
    requires
        MIN_TIMESTAMP <= now <= MAX_TIMESTAMP,
        now + expiry_hours * 3600 <= MAX_TIMESTAMP,
    ensures
        c.sub@ == user_id@,
        c.username@ == username@,
        c.iat == now,
        c.exp == now + expiry_hours * 3600,
        c.exp >= c.iat,
{
    let exp = now + (expiry_hours as i64) * 3600;
    Claims { sub: owned(user_id), exp, iat: now, username: owned(username) }
}

} // verus!
