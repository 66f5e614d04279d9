# stablemint

The core of the Stablemint backend, verified with Verus: account validation,
password hashing, wallet key encryption, configuration checks, database
credentials and connection management, authorization, error reporting, and
the login, API and shared-store rate limiters.

- `src/` is the verified library. Each public function states in `ensures`
  what it returns or changes; laws that relate several calls are public proof
  functions named `law_*`. Calls into outside crates (`sha2`, `pbkdf2`,
  `hex`, `rand`, `uuid`, `argon2`) go through small trusted wrappers whose
  doc comments say what is assumed of them.
- `tests/` runs the library on concrete values.
- `app/` is the service around it: reading configuration and environment,
  files, HTTP middleware (`axum`), token signing (`jsonwebtoken`), the Redis
  store of the shared rate limiter and the secrets services (`reqwest`). It
  performs the I/O and hands plain values to the library's decisions.

Times in the library are arguments (milliseconds for the in-process limiters
and credentials, seconds for tokens and the shared store), so every decision
is a function of its inputs.
