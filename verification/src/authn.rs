//! Bearer-token authentication of HTTP requests: the token settings, taking
//! the token from the `Authorization` header, the errors of a failed
//! validation, the authenticated user, and the role check of a route.
use vstd::prelude::*;
use crate::db_error::AppError;
use vstd::string::StringSliceAdditionalSpecFns;
use crate::text::{lemma_encode_concat, lemma_prefix_boundary, owned, has_prefix, starts_with, parse_i64, parse_i64_spec, str_eq};

verus! {

/// The claims carried by a token.
#[derive(Debug, Clone)]
pub struct Claims {
    pub sub: String,
    pub exp: usize,
    pub iat: usize,
    pub role: String,
    pub address: String,
}

/// Token signing secret and lifetime in seconds.
#[derive(Debug, Clone)]
pub struct JwtConfig {
    pub secret: String,
    pub expiration_secs: i64,
}

/// The largest number of hours a token lifetime may span.
pub const MAX_EXPIRATION_HOURS: i64 = 2_562_047_788_015;

/// The lifetime setting in hours: `24` when absent, else the parsed value.
pub open spec fn expiration_hours_of(hours: Option<Seq<char>>) -> Option<int> {
    match hours {
        None => Some(24),
        Some(s) => parse_i64_spec(s),
    }
}

impl JwtConfig {
    /// The settings from the secret and the lifetime in hours as written
    /// (`None` when unset): the secret is required, the lifetime defaults
    /// to 24 hours and must be an integer.
    pub fn from_settings(secret: Option<String>, expiration_hours: Option<&str>) -> (r: Result<JwtConfig, AppError>)
        requires
            expiration_hours_of(match expiration_hours { Some(s) => Some(s@), None => None }) matches Some(h)
                ==> -MAX_EXPIRATION_HOURS <= h <= MAX_EXPIRATION_HOURS,
        ensures
            secret is None ==> (r is Err && r->Err_0 is ConfigError
                && r->Err_0->ConfigError_0@ == "JWT_SECRET environment variable not set"@),
            secret is Some && expiration_hours_of(match expiration_hours { Some(s) => Some(s@), None => None }) is None
                ==> (r is Err && r->Err_0 is ConfigError && r->Err_0->ConfigError_0@ == "Invalid JWT_EXPIRATION_HOURS value"@),
            r is Ok ==> secret is Some && r->Ok_0.secret == secret->0
                && r->Ok_0.expiration_secs == expiration_hours_of(match expiration_hours { Some(s) => Some(s@), None => None })->0 * 3600,
            secret is Some && expiration_hours_of(match expiration_hours { Some(s) => Some(s@), None => None }) is Some ==> r is Ok,
    {
        let secret = match secret {
            Some(s) => s,
            None => return Err(AppError::ConfigError(owned("JWT_SECRET environment variable not set"))),
        };
        let hours: i64 = match expiration_hours {
            None => 24,
            Some(s) => match parse_i64(s) {
                Some(h) => h,
                None => return Err(AppError::ConfigError(owned("Invalid JWT_EXPIRATION_HOURS value"))),
            },
        };
        Ok(JwtConfig { secret, expiration_secs: hours * 3600 })
    }
}

/// Issues and checks tokens with one configuration.
#[derive(Debug, Clone)]
pub struct JwtAuth {
    pub config: JwtConfig,
}

impl JwtAuth {
    /// Token handling with `config`.
    pub fn new(config: JwtConfig) -> (a: Self)
        ensures
            a.config == config,
    {
        JwtAuth { config }
    }

    /// The claims of a token for a user issued at `now` (Unix seconds),
    /// expiring after the configured lifetime. The times are stored as
    /// `usize`, as the token's claims hold them.
    pub fn claims_at(&self, user_id: &str, role: &str, address: &str, now: i64) -> (c: Claims)
        requires
            crate::jwt::MIN_TIMESTAMP <= now <= crate::jwt::MAX_TIMESTAMP,
            crate::jwt::MIN_TIMESTAMP <= now + self.config.expiration_secs <= crate::jwt::MAX_TIMESTAMP,
        ensures
            c.sub@ == user_id@,
            c.role@ == role@,
            c.address@ == address@,
            c.iat == now as usize,
            c.exp == ((now + self.config.expiration_secs) as i64) as usize,
    {
        let exp: i64 = now + self.config.expiration_secs;
        Claims { sub: owned(user_id), exp: exp as usize, iat: now as usize, role: owned(role), address: owned(address) }
    }

    /// The token of a `Bearer` authorization header.
    pub fn extract_token_from_header(auth_header: &str) -> (r: Result<&str, AppError>)
        ensures
            has_prefix(auth_header@, "Bearer "@) ==> (r is Ok && "Bearer "@ + r->Ok_0@ == auth_header@),
            !has_prefix(auth_header@, "Bearer "@) ==> (r is Err && r->Err_0 is AuthError
                && r->Err_0->AuthError_0@ == "Authorization header must start with 'Bearer '"@),
    {
        if !starts_with(auth_header, "Bearer ") {
            return Err(AppError::AuthError(owned("Authorization header must start with 'Bearer '")));
        }
        let ghost p = "Bearer "@;
        let ghost rest = auth_header@.skip(7);
        proof {
            reveal_strlit("Bearer ");
            assert(auth_header@.take(7) =~= p);
            assert(auth_header@ =~= p + rest);
            vstd::utf8::is_ascii_chars_encode_utf8(p);
            lemma_prefix_boundary(auth_header@, 7);
            lemma_encode_concat(p, rest);
        }
        let (_, token) = auth_header.split_at(7);
        proof {
            assert(vstd::utf8::encode_utf8(token@) =~= vstd::utf8::encode_utf8(rest));
            vstd::utf8::encode_utf8_decode_utf8(token@);
            vstd::utf8::encode_utf8_decode_utf8(rest);
        }
        Ok(token)
    }
}

/// The error of a failed token validation: an expired token, or any other
/// failure with the decoder's rendered error.
pub fn token_error(expired: bool, rendered: &str) -> (e: AppError)
    ensures
        expired ==> e == AppError::AuthError(e->AuthError_0) && e->AuthError_0@ == "Token expired"@,
        !expired ==> e == AppError::AuthError(e->AuthError_0) && e->AuthError_0@ == "Invalid token: "@ + rendered@,
{
    if expired {
        AppError::AuthError(owned("Token expired"))
    } else {
        let mut m = owned("Invalid token: ");
        m.append(rendered);
        AppError::AuthError(m)
    }
}

/// The user a valid token authenticates.
#[derive(Debug, Clone)]
pub struct AuthUser {
    pub id: String,
    pub role: String,
    pub address: String,
}

/// How the `Authorization` header of a request reads.
pub enum AuthHeader<'a> {
    Missing,
    NotText,
    Text(&'a str),
}

/// The token of a request's `Authorization` header, or the rejection.
pub fn request_token<'a>(header: AuthHeader<'a>) -> (r: Result<&'a str, (u16, &'static str)>)
    ensures
        header is Missing ==> r == Err::<&str, (u16, &str)>((401, "Missing Authorization header")),
        header is NotText ==> r == Err::<&str, (u16, &str)>((400, "Invalid Authorization header")),
        header matches AuthHeader::Text(h) ==> (if has_prefix(h@, "Bearer "@) {
            r is Ok && "Bearer "@ + r->Ok_0@ == h@
        } else {
            r == Err::<&str, (u16, &str)>((401, "Invalid Authorization format"))
        }),
{
    match header {
        AuthHeader::Missing => Err((401, "Missing Authorization header")),
        AuthHeader::NotText => Err((400, "Invalid Authorization header")),
        AuthHeader::Text(h) => match JwtAuth::extract_token_from_header(h) {
            Ok(t) => Ok(t),
            Err(_) => Err((401, "Invalid Authorization format")),
        },
    }
}

/// The user of validated claims, or the rejection of a token that did not validate.
pub fn auth_user_from_validation(validated: Result<Claims, AppError>) -> (r: Result<AuthUser, (u16, &'static str)>)
    ensures
        validated is Err ==> r == Err::<AuthUser, (u16, &str)>((401, "Invalid token")),
        validated matches Ok(c) ==> (r is Ok && r->Ok_0.id == c.sub && r->Ok_0.role == c.role && r->Ok_0.address == c.address),
{
    match validated {
        Ok(c) => Ok(AuthUser { id: c.sub, role: c.role, address: c.address }),
        Err(_) => Err((401, "Invalid token")),
    }
}

/// A user may use a route for `required_role` when they have that role or are `Admin`.
pub open spec fn role_allows(role: Seq<char>, required_role: Seq<char>) -> bool {
    role == required_role || role == "Admin"@
}

/// The role check of a route: the user passes through, or is refused with 403.
pub fn authorize(required_role: &str, user: AuthUser) -> (r: Result<AuthUser, (u16, &'static str)>)
    ensures
        role_allows(user.role@, required_role@) ==> r == Ok::<AuthUser, (u16, &str)>(user),
        !role_allows(user.role@, required_role@) ==> r == Err::<AuthUser, (u16, &str)>((403, "Insufficient permissions for this operation")),
{
    if str_eq(user.role.as_str(), required_role) || str_eq(user.role.as_str(), "Admin") {
        Ok(user)
    } else {
        Err((403, "Insufficient permissions for this operation"))
    }
}

/// Law: a user passes a route's role check only with exactly the route's
/// role or the `Admin` role; in particular no one but an administrator
/// passes an `Admin` route, and a user always passes a route of their own role.
pub proof fn law_only_matching_role_or_admin_passes(role: Seq<char>, required_role: Seq<char>)
    ensures
        role_allows(role, required_role) ==> role == required_role || role == "Admin"@,
        role != "Admin"@ ==> !role_allows(role, "Admin"@),
        role_allows(role, role),
{
}

/// Law: an administrator passes every role check.
pub proof fn law_admin_passes_every_route(required_role: Seq<char>)
    ensures
        role_allows("Admin"@, required_role),
{
}

} // verus!
