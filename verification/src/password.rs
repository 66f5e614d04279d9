//! Password hashing with Argon2 under configured parameters, and checking a
//! password against a stored PHC hash string.
use vstd::prelude::*;
use crate::config_loader::Argon2Config;
use crate::error::AppError;
use crate::text::{ascii_ieq, dec, eq_ignore_ascii_case, has_prefix, owned};
use vstd::utf8::encode_utf8;

verus! {

/// The Argon2 variants.
#[derive(Debug, Clone, Copy, PartialEq, Eq, Structural)]
pub enum Argon2Variant {
    Argon2i,
    Argon2d,
    Argon2id,
}

/// The variant a configured name selects: `argon2i` or `argon2d` in any
/// letter case, Argon2id for anything else.
pub open spec fn variant_of(name: Seq<char>) -> Argon2Variant {
    if ascii_ieq(name, "argon2i"@) {
        Argon2Variant::Argon2i
    } else if ascii_ieq(name, "argon2d"@) {
        Argon2Variant::Argon2d
    } else {
        Argon2Variant::Argon2id
    }
}

/// The variant selected by a configured name.
pub fn argon2_variant(name: &str) -> (v: Argon2Variant)
    ensures
        v == variant_of(name@),
{
    if eq_ignore_ascii_case(name, "argon2i") {
        Argon2Variant::Argon2i
    } else if eq_ignore_ascii_case(name, "argon2d") {
        Argon2Variant::Argon2d
    } else {
        Argon2Variant::Argon2id
    }
}

/// Why `argon2::Params::new` refuses memory, iterations and parallelism
/// (with a 64-byte output), if it does: the rendered error.
pub open spec fn params_problem(memory: u32, iterations: u32, parallelism: u32) -> Option<Seq<char>> {
    if memory < 8 || memory < parallelism * 8 {
        Some("memory cost is too small"@)
    } else if iterations < 1 {
        Some("time cost is too small"@)
    } else if parallelism < 1 {
        Some("not enough threads"@)
    } else if parallelism > 0xFFFFFF {
        Some("too many threads"@)
    } else {
        None
    }
}

/// The algorithm identifier of a variant in a PHC string.
pub open spec fn variant_ident(v: Argon2Variant) -> Seq<char> {
    match v {
        Argon2Variant::Argon2i => "argon2i"@,
        Argon2Variant::Argon2d => "argon2d"@,
        Argon2Variant::Argon2id => "argon2id"@,
    }
}

/// How a PHC string of Argon2 version 0x13 with these costs begins:
/// `$<variant>$v=19$m=<memory>,t=<iterations>,p=<parallelism>$`, followed
/// by the salt and the hash.
pub open spec fn phc_prefix(v: Argon2Variant, memory: u32, iterations: u32, parallelism: u32) -> Seq<char> {
    "$"@ + variant_ident(v) + "$v=19$m="@ + dec(memory as nat) + ",t="@ + dec(iterations as nat)
        + ",p="@ + dec(parallelism as nat) + "$"@
}

/// Why hashing failed: the parameters were refused, or the hasher failed.
pub enum Argon2Failure {
    Params(String),
    Hash(String),
}

/// `argon2::Params::new(memory, iterations, parallelism, Some(64))`, then
/// `PasswordHasher::hash_password` of `Argon2::new(variant, V0x13, params)`
/// with a salt from `OsRng` (`SaltString::generate`), rendered as a PHC
/// string; errors are rendered with their `Display`.
/// - `Params::new` checks, in order, memory at least 8 and at least 8 per
///   lane, at least one pass, 1 to 0xFFFFFF lanes; `parallelism * 8` is
///   computed in `u32`, so it must not overflow.
/// - The PHC string is `$<variant>$v=19$m=..,t=..,p=..$<salt>$<hash>`
///   (`PasswordHash`'s `Display`); it parses, and `verify_password` of
///   `Argon2::default()` recomputes with the string's own variant, version,
///   costs and salt (no secret on either side), so it accepts the password.
/// - Once the costs pass, hashing fails only for a password longer than
///   `MAX_PWD_LEN` (0xFFFFFFFF bytes): the generated salt, the 64-byte
///   output and the rendered parameters are always within Argon2's limits.
/// - The salt is random, so the rest of the string is not stated.
#[verifier::external_body]
fn argon2_hash_with_random_salt(password: &[u8], variant: Argon2Variant, memory: u32, iterations: u32, parallelism: u32)
    -> (r: Result<String, Argon2Failure>)
    requires
        parallelism * 8 <= u32::MAX,
    ensures
        match params_problem(memory, iterations, parallelism) {
            Some(m) => r is Err && r->Err_0 is Params && r->Err_0->Params_0@ == m,
            None => !(r is Err && r->Err_0 is Params),
        },
        params_problem(memory, iterations, parallelism) is None && password@.len() <= 0xFFFF_FFFF ==> r is Ok,
        r matches Ok(h) ==> {
            &&& has_prefix(h@, phc_prefix(variant, memory, iterations, parallelism))
            &&& phc_parse_error(h@) is None
            &&& argon2_accepts(password@, h@)
        },
{
    let params = match argon2::Params::new(memory, iterations, parallelism, Some(64)) {
        Ok(p) => p,
        Err(e) => return Err(Argon2Failure::Params(e.to_string())),
    };
    let salt = argon2::password_hash::SaltString::generate(&mut argon2::password_hash::rand_core::OsRng);
    let algorithm = match variant {
        Argon2Variant::Argon2i => argon2::Algorithm::Argon2i,
        Argon2Variant::Argon2d => argon2::Algorithm::Argon2d,
        Argon2Variant::Argon2id => argon2::Algorithm::Argon2id,
    };
    <argon2::Argon2 as argon2::PasswordHasher>::hash_password(&argon2::Argon2::new(algorithm, argon2::Version::V0x13, params), password, &salt)
        .map(|h| h.to_string()).map_err(|e| Argon2Failure::Hash(e.to_string()))
}

/// Hashes a password with the configured Argon2 variant and costs.
/// - Refused costs give `ServerError("Failed to create Argon2 params: ...")`.
/// - Otherwise the result is a PHC string of the configured variant and
///   costs that parses and that `verify_password` accepts for this password.
///   It is always returned when the costs are accepted, unless the password
///   is longer than 0xFFFFFFFF bytes; then the error is
///   `ServerError("Failed to hash password: ...")`.
pub fn hash_password(password: &str, config: &Argon2Config) -> (r: Result<String, AppError>)
    requires
        config.parallelism * 8 <= u32::MAX,
    ensures
        params_problem(config.memory, config.iterations, config.parallelism) matches Some(m)
            ==> (r is Err && r->Err_0 is ServerError && r->Err_0->ServerError_0@ == "Failed to create Argon2 params: "@ + m),
        r is Err && params_problem(config.memory, config.iterations, config.parallelism) is None
            ==> (r->Err_0 is ServerError && crate::text::has_prefix(r->Err_0->ServerError_0@, "Failed to hash password: "@)),
        params_problem(config.memory, config.iterations, config.parallelism) is None
            && encode_utf8(password@).len() <= 0xFFFF_FFFF ==> r is Ok,
        r matches Ok(h) ==> {
            &&& params_problem(config.memory, config.iterations, config.parallelism) is None
            &&& has_prefix(h@, phc_prefix(variant_of(config.variant@), config.memory, config.iterations, config.parallelism))
            &&& phc_parse_error(h@) is None
            &&& argon2_accepts(encode_utf8(password@), h@)
        },
{
    let variant = argon2_variant(config.variant.as_str());
    match argon2_hash_with_random_salt(password.as_bytes(), variant, config.memory, config.iterations, config.parallelism) {
        Ok(h) => Ok(h),
        Err(Argon2Failure::Params(e)) => {
            let mut msg = owned("Failed to create Argon2 params: ");
            msg.append(e.as_str());
            Err(AppError::ServerError(msg))
        },
        Err(Argon2Failure::Hash(e)) => {
            let mut msg = owned("Failed to hash password: ");
            let ghost prefix = msg@;
            msg.append(e.as_str());
            assert(msg@.subrange(0, prefix.len() as int) =~= prefix);
            Err(AppError::ServerError(msg))
        },
    }
}

/// Why `password_hash::PasswordHash::new` cannot parse a PHC string, if it
/// cannot: the rendered error.
pub uninterp spec fn phc_parse_error(hash: Seq<char>) -> Option<Seq<char>>;

/// Whether Argon2 with default settings accepts the password for a parsed PHC string.
pub uninterp spec fn argon2_accepts(password: Seq<u8>, hash: Seq<char>) -> bool;

/// `password_hash::PasswordHash::new`: whether the PHC string parses; the
/// error is rendered with its `Display`. Named, not described.
#[verifier::external_body]
fn phc_parse(hash: &str) -> (r: Result<(), String>)
    ensures
        match phc_parse_error(hash@) {
            None => r is Ok,
            Some(m) => r is Err && r->Err_0@ == m,
        },
{
    match argon2::password_hash::PasswordHash::new(hash) {
        Ok(_) => Ok(()),
        Err(e) => Err(e.to_string()),
    }
}

/// `argon2::PasswordVerifier::verify_password` of `Argon2::default()` on the
/// parsed PHC string: whether it succeeds. Named, not described.
#[verifier::external_body]
fn argon2_verify(password: &[u8], hash: &str) -> (b: bool)
    requires
        phc_parse_error(hash@) is None,
    ensures
        b == argon2_accepts(password@, hash@),
{
    match argon2::password_hash::PasswordHash::new(hash) {
        Ok(parsed) => <argon2::Argon2 as argon2::PasswordVerifier>::verify_password(
            &argon2::Argon2::default(), password, &parsed).is_ok(),
        Err(_) => false,
    }
}

/// Whether `password` matches the stored hash; an unparsable hash is a server error.
pub fn verify_password(password: &str, password_hash: &str) -> (r: Result<bool, AppError>)
    ensures
        match phc_parse_error(password_hash@) {
            Some(m) => r is Err && r->Err_0 is ServerError && r->Err_0->ServerError_0@ == "Invalid password hash: "@ + m,
            None => r == Ok::<bool, AppError>(argon2_accepts(vstd::utf8::encode_utf8(password@), password_hash@)),
        },
{
    match phc_parse(password_hash) {
        Ok(()) => Ok(argon2_verify(password.as_bytes(), password_hash)),
        Err(e) => {
            let mut msg = owned("Invalid password hash: ");
            msg.append(e.as_str());
            Err(AppError::ServerError(msg))
        },
    }
}

} // verus!
