//! What the HTTP middleware decides: who a client is, which headers a
//! response carries, how a finished request is logged, and which error
//! statuses are replaced by a uniform body. The middleware reads the
//! request and writes the response; these functions decide.
use vstd::prelude::*;
use crate::api_limiter::RateLimitInfo;
use crate::error::ErrorResponse;
use crate::redis_limiter::RateLimitStatus;
use crate::text::{owned, trim, trim_str, dec, dec_int, u64_to_string, i64_to_string};

verus! {

/// The client of a request: its API key when it sends a readable one, else
/// its address when one is known, else `unknown`.
pub open spec fn client_id_of(api_key: Option<Seq<char>>, client_ip: Option<Seq<char>>) -> Seq<char> {
    match api_key {
        Some(k) => k,
        None => match client_ip {
            Some(ip) => ip,
            None => "unknown"@,
        },
    }
}

/// Identifies the client of a request.
pub fn extract_client_id(api_key: Option<&str>, client_ip: Option<String>) -> (r: String)
    ensures
        r@ == client_id_of(match api_key { Some(k) => Some(k@), None => None },
            match client_ip { Some(ip) => Some(ip@), None => None }),
{
    match api_key {
        Some(k) => owned(k),
        None => match client_ip {
            Some(ip) => ip,
            None => owned("unknown"),
        },
    }
}

/// The text before the first comma.
pub open spec fn before_comma(s: Seq<char>) -> Seq<char>
    decreases s.len(),
{
    if s.len() == 0 {
        s
    } else if s[0] == ',' {
        Seq::empty()
    } else {
        seq![s[0]] + before_comma(s.drop_first())
    }
}

/// The first address of an `X-Forwarded-For` value, trimmed (it still has to parse).
pub fn first_forwarded_address(header: &str) -> (r: String)
    ensures
        r@ == trim(before_comma(header@)),
{
    let v = crate::text::chars_of(header);
    let mut out: Vec<char> = Vec::new();
    let mut i: usize = 0;
    assert(v@.skip(0) =~= v@);
    assert(out@ + before_comma(v@.skip(0)) =~= before_comma(v@));
    while i < v.len() && v[i] != ','
        invariant
            v@ == header@,
            i <= v@.len(),
            out@ == v@.subrange(0, i as int),
            before_comma(v@) == out@ + before_comma(v@.skip(i as int)),
        decreases v.len() - i,
    {
        assert(v@.skip(i as int).drop_first() =~= v@.skip(i + 1));
        assert(out@.push(v@[i as int]) =~= out@ + seq![v@[i as int]]);
        out.push(v[i]);
        i = i + 1;
    }
    proof {
        if i < v@.len() {
            assert(v@.skip(i as int)[0] == ',');
        } else {
            assert(v@.skip(i as int) =~= Seq::<char>::empty());
        }
        assert(before_comma(v@) =~= out@);
    }
    let s = crate::text::string_from_chars(out.as_slice());
    trim_str(s.as_str())
}

/// The client address: the parsed first `X-Forwarded-For` address, else the
/// parsed `X-Real-IP`, else the connection's peer address.
pub fn choose_client_ip(forwarded: Option<String>, real_ip: Option<String>, peer: Option<String>) -> (r: Option<String>)
    ensures
        forwarded is Some ==> r == forwarded,
        forwarded is None && real_ip is Some ==> r == real_ip,
        forwarded is None && real_ip is None ==> r == peer,
{
    match forwarded {
        Some(f) => Some(f),
        None => match real_ip {
            Some(r) => Some(r),
            None => peer,
        },
    }
}

/// The rate limit key of a request: client and path.
pub fn path_identifier(client_id: &str, path: &str) -> (r: String)
    ensures
        r@ == client_id@ + ":"@ + path@,
{
    let mut r = owned(client_id);
    r.append(":");
    r.append(path);
    r
}

/// The rate limit headers of a status from the shared store.
pub fn status_headers(status: &RateLimitStatus) -> (h: Vec<(String, String)>)
    ensures
        h@.len() == (if status.block_reset is Some { 4int } else { 3int }),
        h@[0].0@ == "X-RateLimit-Limit"@ && h@[0].1@ == dec(status.limit as nat),
        h@[1].0@ == "X-RateLimit-Remaining"@ && h@[1].1@ == dec(status.remaining as nat),
        h@[2].0@ == "X-RateLimit-Reset"@ && h@[2].1@ == dec_int(status.window_reset as int),
        status.block_reset matches Some(b) ==> h@[3].0@ == "X-RateLimit-BlockReset"@ && h@[3].1@ == dec_int(b as int),
{
    let mut h: Vec<(String, String)> = Vec::new();
    h.push((owned("X-RateLimit-Limit"), u64_to_string(status.limit as u64)));
    h.push((owned("X-RateLimit-Remaining"), u64_to_string(status.remaining as u64)));
    h.push((owned("X-RateLimit-Reset"), i64_to_string(status.window_reset)));
    match status.block_reset {
        Some(b) => h.push((owned("X-RateLimit-BlockReset"), i64_to_string(b))),
        None => {},
    }
    h
}

/// The rate limit headers of a status from the in-process limiter.
pub fn info_headers(info: &RateLimitInfo) -> (h: Vec<(String, String)>)
    ensures
        h@.len() == 3,
        h@[0].0@ == "X-RateLimit-Limit"@ && h@[0].1@ == dec(info.limit as nat),
        h@[1].0@ == "X-RateLimit-Remaining"@ && h@[1].1@ == dec(info.remaining as nat),
        h@[2].0@ == "X-RateLimit-Reset"@ && h@[2].1@ == dec(info.reset_time as nat),
{
    let mut h: Vec<(String, String)> = Vec::new();
    h.push((owned("X-RateLimit-Limit"), u64_to_string(info.limit as u64)));
    h.push((owned("X-RateLimit-Remaining"), u64_to_string(info.remaining as u64)));
    h.push((owned("X-RateLimit-Reset"), u64_to_string(info.reset_time)));
    h
}

/// The security headers every response carries.
pub fn security_headers() -> (h: Vec<(String, String)>)
    ensures
        h@.len() == 5,
        h@[0].0@ == "X-Content-Type-Options"@ && h@[0].1@ == "nosniff"@,
        h@[1].0@ == "X-Frame-Options"@ && h@[1].1@ == "DENY"@,
        h@[2].0@ == "X-XSS-Protection"@ && h@[2].1@ == "1; mode=block"@,
        h@[3].0@ == "Referrer-Policy"@ && h@[3].1@ == "strict-origin-when-cross-origin"@,
        h@[4].0@ == "Content-Security-Policy"@ && h@[4].1@ == "default-src 'self'; script-src 'self'; connect-src 'self';"@,
{
    let mut h: Vec<(String, String)> = Vec::new();
    h.push((owned("X-Content-Type-Options"), owned("nosniff")));
    h.push((owned("X-Frame-Options"), owned("DENY")));
    h.push((owned("X-XSS-Protection"), owned("1; mode=block")));
    h.push((owned("Referrer-Policy"), owned("strict-origin-when-cross-origin")));
    h.push((owned("Content-Security-Policy"), owned("default-src 'self'; script-src 'self'; connect-src 'self';")));
    h
}

/// How a finished request is logged.
#[derive(Debug, Clone, Copy, PartialEq, Eq, Structural)]
pub enum CompletionLevel {
    Info,
    Warn,
    Error,
}

/// The level and message of a finished request's log line by its status.
pub fn completion_log(status: u16) -> (r: (CompletionLevel, &'static str))
    ensures
        status < 400 ==> r == (CompletionLevel::Info, "Request completed"),
        400 <= status < 500 ==> r == (CompletionLevel::Warn, "Request completed with client error"),
        status >= 500 ==> r == (CompletionLevel::Error, "Request completed with server error"),
{
    if status < 400 {
        (CompletionLevel::Info, "Request completed")
    } else if status < 500 {
        (CompletionLevel::Warn, "Request completed with client error")
    } else {
        (CompletionLevel::Error, "Request completed with server error")
    }
}

/// The response that replaces one with status `status` (rendered as
/// `status_text`): a too-large body keeps 413 with its explanation, a server
/// error becomes 500 with a generic message, anything else passes unchanged.
pub fn error_override(status: u16, status_text: &str) -> (r: Option<(u16, ErrorResponse)>)
    ensures
        status == 413 ==> (r matches Some((code, body)) && code == 413 && body.status@ == status_text@
            && body.message@ == "The request body exceeds the maximum allowed size"@
            && body.code@ == "PAYLOAD_TOO_LARGE"@
            && (body.details matches Some(d) && d@ == "Please reduce the size of your request and try again"@)
            && (body.help matches Some(hp) && hp@ == "The maximum allowed request size is 5MB"@)),
        status != 413 && 500 <= status < 600 ==> (r matches Some((code, body)) && code == 500 && body.status@ == status_text@
            && body.message@ == "An internal server error occurred"@
            && body.code@ == "SERVER_ERROR"@
            && body.details is None
            && (body.help matches Some(hp) && hp@ == "Please try again later or contact support if the issue persists"@)),
        status != 413 && !(500 <= status < 600) ==> r is None,
{
    if status == 413 {
        return Some((413, ErrorResponse {
            status: owned(status_text),
            message: owned("The request body exceeds the maximum allowed size"),
            code: owned("PAYLOAD_TOO_LARGE"),
            details: Some(owned("Please reduce the size of your request and try again")),
            help: Some(owned("The maximum allowed request size is 5MB")),
        }));
    }
    if 500 <= status && status < 600 {
        return Some((500, ErrorResponse {
            status: owned(status_text),
            message: owned("An internal server error occurred"),
            code: owned("SERVER_ERROR"),
            details: None,
            help: Some(owned("Please try again later or contact support if the issue persists")),
        }));
    }
    None
}

} // verus!
