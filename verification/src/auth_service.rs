//! The decisions of user registration and login around the user store:
//! sanitizing and validating a registration, refusing taken names, turning
//! store results into answers, and rate limiting failed logins. The store
//! and token issuing are driven by the caller between these steps.
use vstd::prelude::*;
use crate::config_loader::PasswordConfig;
use crate::error::AppError;
use crate::login_limiter::{LoginRateLimiter, LoginAttempt, after_check, after_failure, cleaned, locked};
use crate::models::{RegisterInput, LoginInput, User, UserProfile};
use crate::password::{argon2_accepts, phc_parse_error, verify_password};
use crate::text::{blank, trim, owned, trim_str, lemma_trim_idempotent};
use crate::validation::{
    name_problem, password_problem, username_pattern_accepts, email_pattern_accepts,
    validate_name, validate_username, validate_email, validate_password,
};

verus! {

/// The validation message of a registration, if it is refused: name, user
/// name, e-mail and password are checked in that order, the first three
/// after trimming.
pub open spec fn registration_problem(input: RegisterInput, rules: PasswordConfig) -> Option<Seq<char>> {
    let name = trim(input.name@);
    let username = trim(input.username@);
    let email = trim(input.email@);
    if name_problem(name) is Some {
        name_problem(name)
    } else if blank(username) {
        Some("Username cannot be empty"@)
    } else if !username_pattern_accepts(username) {
        Some("Username must be 3-30 characters long and can only contain letters, numbers, underscores, and hyphens"@)
    } else if blank(email) {
        Some("Email cannot be empty"@)
    } else if !email_pattern_accepts(email) {
        Some("Invalid email format"@)
    } else {
        password_problem(input.password@, rules)
    }
}

/// Registration and login decisions, with the password rules and an
/// optional login rate limiter.
pub struct AuthService {
    password_rules: PasswordConfig,
    rate_limiter: Option<LoginRateLimiter>,
}

impl AuthService {
    /// The password rules in force.
    pub closed spec fn rules(&self) -> PasswordConfig {
        self.password_rules
    }

    /// The login records, when logins are rate limited.
    pub closed spec fn limiter(&self) -> Option<LoginRateLimiter> {
        self.rate_limiter
    }

    /// A service with the given password rules and no rate limiting.
    pub fn new(password_rules: PasswordConfig) -> (s: Self)
        ensures
            s.rules() == password_rules,
            s.limiter() is None,
    {
        AuthService { password_rules, rate_limiter: None }
    }

    /// The same service, rate limiting logins with `rate_limiter`.
    pub fn with_rate_limiter(self, rate_limiter: LoginRateLimiter) -> (s: Self)
        ensures
            s.rules() == self.rules(),
            s.limiter() == Some(rate_limiter),
    {
        AuthService { password_rules: self.password_rules, rate_limiter: Some(rate_limiter) }
    }

    /// The registration with name, user name and e-mail trimmed (the password
    /// is kept as typed), or the validation error.
    pub fn prepare_registration(&self, input: &RegisterInput) -> (r: Result<RegisterInput, AppError>)
        requires
            vstd::utf8::encode_utf8(trim(input.name@)).len() <= usize::MAX,
            vstd::utf8::encode_utf8(input.password@).len() <= usize::MAX,
        ensures
            match registration_problem(*input, self.rules()) {
                None => r is Ok && r->Ok_0.name@ == trim(input.name@) && r->Ok_0.username@ == trim(input.username@)
                    && r->Ok_0.email@ == trim(input.email@) && r->Ok_0.password == input.password,
                Some(m) => r is Err && r->Err_0 is ValidationError && r->Err_0->ValidationError_0@ == m,
            },
    {
        let name = trim_str(input.name.as_str());
        let username = trim_str(input.username.as_str());
        let email = trim_str(input.email.as_str());
        proof {
            lemma_trim_idempotent(input.name@);
        }
        validate_name(name.as_str())?;
        validate_username(username.as_str())?;
        validate_email(email.as_str())?;
        validate_password(input.password.as_str(), &self.password_rules)?;
        Ok(RegisterInput { name, username, email, password: input.password.clone() })
    }

    /// The wallet address of a new user: `0x` and the hex form of random bytes.
    pub fn wallet_address(bytes: &[u8]) -> (a: String)
        ensures
            a@ == "0x"@ + crate::crypto::hex_encode(bytes@),
    {
        crate::crypto::hex_string(bytes, "0x")
    }

    /// The user name and the password of a login, after the checks that
    /// need no stored user: a blank user name or empty password is refused,
    /// then the rate limit is checked at `now`.
    pub fn begin_login(&mut self, input: &LoginInput, now: u64) -> (r: Result<String, AppError>)
        ensures
            final(self).rules() == old(self).rules(),
            trim(input.username@).len() == 0 ==> (r is Err && r->Err_0 is ValidationError
                && r->Err_0->ValidationError_0@ == "Username cannot be empty"@ && *final(self) == *old(self)),
            trim(input.username@).len() != 0 && input.password@.len() == 0 ==> (r is Err && r->Err_0 is ValidationError
                && r->Err_0->ValidationError_0@ == "Password cannot be empty"@ && *final(self) == *old(self)),
            trim(input.username@).len() != 0 && input.password@.len() != 0 ==> match old(self).limiter() {
                None => r is Ok && r->Ok_0@ == trim(input.username@) && final(self).limiter() is None,
                Some(l) => final(self).limiter() matches Some(l2) && l2.spec_limits() == l.spec_limits()
                    && l2@ == after_check(l@, trim(input.username@), now, l.spec_limits())
                    && (r is Ok <==> !locked(cleaned(l@, now, l.spec_limits()), trim(input.username@), now, l.spec_limits()))
                    && (r is Ok ==> r->Ok_0@ == trim(input.username@)),
            },
    {
        let username = trim_str(input.username.as_str());
        if username.as_str().is_empty() {
            return Err(AppError::ValidationError(owned("Username cannot be empty")));
        }
        if input.password.as_str().is_empty() {
            return Err(AppError::ValidationError(owned("Password cannot be empty")));
        }
        match self.rate_limiter.take() {
            Some(mut limiter) => {
                let checked = limiter.check_rate_limit(username.as_str(), now);
                self.rate_limiter = Some(limiter);
                match checked {
                    Ok(()) => Ok(username),
                    Err(e) => Err(e),
                }
            },
            None => Ok(username),
        }
    }

    /// Records a failed login of `username` at `now`, when rate limited.
    fn note_failure(&mut self, username: &str, now: u64)
        requires
            old(self).limiter() matches Some(l) ==> (l@.contains_key(username@) ==> l@[username@].attempts < usize::MAX),
        ensures
            final(self).rules() == old(self).rules(),
            match old(self).limiter() {
                None => final(self).limiter() is None,
                Some(l) => final(self).limiter() matches Some(l2) && l2.spec_limits() == l.spec_limits()
                    && l2@ == after_failure(l@, username@, now),
            },
    {
        match self.rate_limiter.take() {
            Some(mut limiter) => {
                limiter.record_failed_attempt(username, now);
                self.rate_limiter = Some(limiter);
            },
            None => {},
        }
    }

    /// Finishes a login of `username` with `password` once the store was
    /// asked for users of that name (`None` when there is no store). An
    /// unknown user or a wrong password is one same refusal and counts as a
    /// failed attempt; a match clears the user's failures.
    pub fn finish_login(&mut self, username: &str, password: &str, found: Option<Result<Vec<User>, String>>, now: u64) -> (r: Result<User, AppError>)
        requires
            old(self).limiter() matches Some(l) ==> (l@.contains_key(username@) ==> l@[username@].attempts < usize::MAX),
        ensures
            final(self).rules() == old(self).rules(),
            match found {
                None => r is Err && r->Err_0 is ServerError && r->Err_0->ServerError_0@ == "Database not available"@
                    && *final(self) == *old(self),
                Some(Err(m)) => r is Err && r->Err_0 is DatabaseError && r->Err_0->DatabaseError_0@ == m@
                    && *final(self) == *old(self),
                Some(Ok(users)) => if users@.len() == 0 {
                    login_refused(r) && failure_noted(*old(self), *final(self), username@, now)
                } else {
                    match phc_parse_error(users@[0].password@) {
                        Some(m) => r is Err && r->Err_0 is ServerError && r->Err_0->ServerError_0@ == "Invalid password hash: "@ + m
                            && *final(self) == *old(self),
                        None => if argon2_accepts(vstd::utf8::encode_utf8(password@), users@[0].password@) {
                            r == Ok::<User, AppError>(users@[0]) && success_noted(*old(self), *final(self), username@)
                        } else {
                            login_refused(r) && failure_noted(*old(self), *final(self), username@, now)
                        },
                    }
                },
            },
    {
        let users = match found {
            None => return Err(AppError::ServerError(owned("Database not available"))),
            Some(Err(e)) => return Err(AppError::DatabaseError(e)),
            Some(Ok(users)) => users,
        };
        if users.len() == 0 {
            self.note_failure(username, now);
            return Err(AppError::AuthenticationError(owned("Invalid username or password")));
        }
        let mut users = users;
        let user = users.swap_remove(0);
        let is_valid = verify_password(password, user.password.as_str())?;
        if !is_valid {
            self.note_failure(username, now);
            return Err(AppError::AuthenticationError(owned("Invalid username or password")));
        }
        match self.rate_limiter.take() {
            Some(mut limiter) => {
                limiter.record_successful_attempt(username);
                self.rate_limiter = Some(limiter);
            },
            None => {},
        }
        Ok(user)
    }
}

/// The single refusal of a login: unknown user or wrong password alike.
pub open spec fn login_refused(r: Result<User, AppError>) -> bool {
    r is Err && r->Err_0 is AuthenticationError && r->Err_0->AuthenticationError_0@ == "Invalid username or password"@
}

/// A failed attempt of `username` at `now` was recorded, if logins are limited.
pub open spec fn failure_noted(before: AuthService, after: AuthService, username: Seq<char>, now: u64) -> bool {
    after.rules() == before.rules() && match before.limiter() {
        None => after.limiter() is None,
        Some(l) => after.limiter() matches Some(l2) && l2.spec_limits() == l.spec_limits()
            && l2@ == after_failure(l@, username, now),
    }
}

/// The failures of `username` were cleared, if logins are limited.
pub open spec fn success_noted(before: AuthService, after: AuthService, username: Seq<char>) -> bool {
    after.rules() == before.rules() && match before.limiter() {
        None => after.limiter() is None,
        Some(l) => after.limiter() matches Some(l2) && l2.spec_limits() == l.spec_limits()
            && l2@ == l@.remove(username),
    }
}

/// Refuses a registration whose user name or e-mail is already stored:
/// the counts of stored users with that name, then with that e-mail (asked
/// only when the name is free).
pub fn check_registration_available(existing_usernames: usize, existing_emails: Option<usize>) -> (r: Result<(), AppError>)
    ensures
        existing_usernames > 0 ==> (r is Err && r->Err_0 is ValidationError && r->Err_0->ValidationError_0@ == "Username already taken"@),
        existing_usernames == 0 && (existing_emails matches Some(n) && n > 0) ==> (r is Err && r->Err_0 is ValidationError
            && r->Err_0->ValidationError_0@ == "Email already registered"@),
        r is Ok <==> existing_usernames == 0 && !(existing_emails matches Some(n) && n > 0),
{
    if existing_usernames > 0 {
        return Err(AppError::ValidationError(owned("Username already taken")));
    }
    match existing_emails {
        Some(n) => if n > 0 {
            return Err(AppError::ValidationError(owned("Email already registered")));
        },
        None => {},
    }
    Ok(())
}

/// The user kept after storing: the stored record, the submitted one when
/// the store returned nothing, or the store's error.
pub fn stored_user(submitted: User, stored: Result<Option<User>, String>) -> (r: Result<User, AppError>)
    ensures
        match stored {
            Ok(Some(u)) => r == Ok::<User, AppError>(u),
            Ok(None) => r == Ok::<User, AppError>(submitted),
            Err(m) => r is Err && r->Err_0 is DatabaseError && r->Err_0->DatabaseError_0@ == m@,
        },
{
    match stored {
        Ok(Some(u)) => Ok(u),
        Ok(None) => Ok(submitted),
        Err(m) => Err(AppError::DatabaseError(m)),
    }
}

/// The profile answered for a lookup by id: `None` when there is no store.
pub fn user_lookup_result(found: Option<Result<Option<User>, String>>) -> (r: Result<UserProfile, AppError>)
    ensures
        match found {
            None => r is Err && r->Err_0 is ServerError && r->Err_0->ServerError_0@ == "Database not available"@,
            Some(Err(m)) => r is Err && r->Err_0 is DatabaseError && r->Err_0->DatabaseError_0@ == m@,
            Some(Ok(None)) => r is Err && r->Err_0 is NotFoundError && r->Err_0->NotFoundError_0@ == "User not found"@,
            Some(Ok(Some(u))) => r is Ok && r->Ok_0.id == u.id && r->Ok_0.username == u.username && r->Ok_0.email == u.email,
        },
{
    match found {
        None => Err(AppError::ServerError(owned("Database not available"))),
        Some(Err(m)) => Err(AppError::DatabaseError(m)),
        Some(Ok(None)) => Err(AppError::NotFoundError(owned("User not found"))),
        Some(Ok(Some(u))) => Ok(UserProfile::from_user(u)),
    }
}

} // verus!
