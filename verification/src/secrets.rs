//! The request and answer logic of the HCP Vault Secrets client and the
//! HashiCorp Vault client: where requests go, which token they carry, and
//! how each failure is reported. The HTTP exchanges are made by the caller,
//! which hands over the status, rendered status and body of each answer.
use vstd::prelude::*;
use crate::error::AppError;
use crate::text::owned;

verus! {

/// `prefix` followed by `a`, then `b`.
fn concat3(prefix: &str, a: &str, b: &str) -> (r: String)
    ensures
        r@ == prefix@ + a@ + b@,
{
    let mut r = owned(prefix);
    r.append(a);
    r.append(b);
    r
}

/// `prefix` followed by `a`.
fn concat2(prefix: &str, a: &str) -> (r: String)
    ensures
        r@ == prefix@ + a@,
{
    let mut r = owned(prefix);
    r.append(a);
    r
}

/// The `Authorization` header value for a token.
pub fn bearer(token: &str) -> (r: String)
    ensures
        r@ == "Bearer "@ + token@,
{
    concat2("Bearer ", token)
}

/// A client of HCP Vault Secrets: organization, project, app and client
/// credentials, and the access token once authenticated.
#[derive(Clone)]
pub struct SecretsClient {
    base_url: String,
    token: Option<String>,
    org_id: String,
    project_id: String,
    app_name: String,
    client_id: String,
    client_secret: String,
}

/// The body of the client-credentials token request.
#[derive(Debug, Clone)]
pub struct AuthRequest {
    pub audience: String,
    pub grant_type: String,
    pub client_id: String,
    pub client_secret: String,
}

/// The token endpoint of HCP.
pub const HCP_AUTH_URL: &'static str = "https://auth.idp.hashicorp.com/oauth2/token";

impl SecretsClient {
    /// The access token, if authenticated.
    pub closed spec fn token_view(&self) -> Option<Seq<char>> {
        match self.token {
            Some(t) => Some(t@),
            None => None,
        }
    }

    /// The path of a secret below the base URL.
    pub closed spec fn secret_path(&self, name: Seq<char>) -> Seq<char> {
        self.base_url@ + "/secrets/2023-11-28/organizations/"@ + self.org_id@ + "/projects/"@
            + self.project_id@ + "/apps/"@ + self.app_name@ + "/secrets/"@ + name
    }

    /// The client id and secret used to authenticate.
    pub closed spec fn credentials(&self) -> (Seq<char>, Seq<char>) {
        (self.client_id@, self.client_secret@)
    }

    /// A client that is not yet authenticated.
    pub fn new(base_url: &str, org_id: &str, project_id: &str, app_name: &str, client_id: &str, client_secret: &str) -> (c: Self)
        ensures
            c.token_view() is None,
            forall|name: Seq<char>| #[trigger] c.secret_path(name) == base_url@ + "/secrets/2023-11-28/organizations/"@
                + org_id@ + "/projects/"@ + project_id@ + "/apps/"@ + app_name@ + "/secrets/"@ + name,
            c.credentials() == (client_id@, client_secret@),
    {
        SecretsClient {
            base_url: owned(base_url),
            token: None,
            org_id: owned(org_id),
            project_id: owned(project_id),
            app_name: owned(app_name),
            client_id: owned(client_id),
            client_secret: owned(client_secret),
        }
    }

    /// Whether an access token is held.
    pub fn is_authenticated(&self) -> (b: bool)
        ensures
            b == self.token_view() is Some,
    {
        self.token.is_some()
    }

    /// The access token, if authenticated.
    pub fn token(&self) -> (t: Option<String>)
        ensures
            match t { Some(s) => self.token_view() == Some(s@), None => self.token_view() is None },
    {
        match &self.token {
            Some(t) => Some(t.clone()),
            None => None,
        }
    }

    /// The body of the token request.
    pub fn auth_request(&self) -> (r: AuthRequest)
        ensures
            r.audience@ == "https://api.hashicorp.cloud"@,
            r.grant_type@ == "client_credentials"@,
            r.client_id@ == self.credentials().0,
            r.client_secret@ == self.credentials().1,
    {
        AuthRequest {
            audience: owned("https://api.hashicorp.cloud"),
            grant_type: owned("client_credentials"),
            client_id: self.client_id.clone(),
            client_secret: self.client_secret.clone(),
        }
    }

    /// Keeps the access token of a successful authentication.
    pub fn set_token(&mut self, access_token: String)
        ensures
            final(self).token_view() == Some(access_token@),
            forall|name: Seq<char>| #[trigger] final(self).secret_path(name) == old(self).secret_path(name),
            final(self).credentials() == old(self).credentials(),
    {
        self.token = Some(access_token);
    }

    /// The URL that opens (reads) a secret.
    pub fn secret_open_url(&self, secret_name: &str) -> (u: String)
        ensures
            u@ == self.secret_path(secret_name@) + ":open"@,
    {
        let mut u = self.secret_url(secret_name);
        u.append(":open");
        u
    }

    /// The URL that stores a secret.
    pub fn secret_url(&self, secret_name: &str) -> (u: String)
        ensures
            u@ == self.secret_path(secret_name@),
    {
        let mut u = concat3(self.base_url.as_str(), "/secrets/2023-11-28/organizations/", self.org_id.as_str());
        u.append("/projects/");
        u.append(self.project_id.as_str());
        u.append("/apps/");
        u.append(self.app_name.as_str());
        u.append("/secrets/");
        u.append(secret_name);
        u
    }
}

/// The error of an HCP request that could not be sent.
pub fn hcp_connect_error(rendered: &str, during_auth: bool) -> (e: AppError)
    ensures
        during_auth ==> e == AppError::NetworkError(e->NetworkError_0) && e->NetworkError_0@ == "Failed to connect to HCP: "@ + rendered@,
        !during_auth ==> e == AppError::NetworkError(e->NetworkError_0) && e->NetworkError_0@ == "Failed to connect to HCP Secrets: "@ + rendered@,
{
    if during_auth {
        AppError::NetworkError(concat2("Failed to connect to HCP: ", rendered))
    } else {
        AppError::NetworkError(concat2("Failed to connect to HCP Secrets: ", rendered))
    }
}

/// The error of a refused HCP authentication, with the rendered status and the body.
pub fn hcp_auth_failure(status: &str, body: &str) -> (e: AppError)
    ensures
        e == AppError::AuthenticationError(e->AuthenticationError_0)
            && e->AuthenticationError_0@ == "Failed to authenticate with HCP: HTTP "@ + status@ + ": "@ + body@,
{
    let mut m = concat3("Failed to authenticate with HCP: HTTP ", status, ": ");
    m.append(body);
    AppError::AuthenticationError(m)
}

/// The error when no token is held even after authenticating.
pub fn hcp_not_authenticated() -> (e: AppError)
    ensures
        e == AppError::AuthenticationError(e->AuthenticationError_0)
            && e->AuthenticationError_0@ == "Failed to authenticate with HCP"@,
{
    AppError::AuthenticationError(owned("Failed to authenticate with HCP"))
}

/// The error of an unreadable HCP answer.
pub fn hcp_invalid_response(rendered: &str, during_auth: bool) -> (e: AppError)
    ensures
        during_auth ==> e == AppError::NetworkError(e->NetworkError_0) && e->NetworkError_0@ == "Invalid HCP response: "@ + rendered@,
        !during_auth ==> e == AppError::ServerError(e->ServerError_0) && e->ServerError_0@ == "Invalid HCP response: "@ + rendered@,
{
    if during_auth {
        AppError::NetworkError(concat2("Invalid HCP response: ", rendered))
    } else {
        AppError::ServerError(concat2("Invalid HCP response: ", rendered))
    }
}

/// The error of a failed read of a secret: not found for 404, otherwise a
/// server error with the rendered status.
pub fn hcp_get_failure(status_code: u16, status: &str, secret_name: &str) -> (e: AppError)
    ensures
        status_code == 404 ==> e == AppError::NotFoundError(e->NotFoundError_0) && e->NotFoundError_0@ == "Secret not found: "@ + secret_name@,
        status_code != 404 ==> e == AppError::ServerError(e->ServerError_0)
            && e->ServerError_0@ == "Failed to retrieve secret from HCP: HTTP "@ + status@,
{
    if status_code == 404 {
        AppError::NotFoundError(concat2("Secret not found: ", secret_name))
    } else {
        AppError::ServerError(concat2("Failed to retrieve secret from HCP: HTTP ", status))
    }
}

/// The error of a failed store of a secret.
pub fn hcp_store_failure(status: &str) -> (e: AppError)
    ensures
        e == AppError::ServerError(e->ServerError_0) && e->ServerError_0@ == "Failed to store secret in HCP: HTTP "@ + status@,
{
    AppError::ServerError(concat2("Failed to store secret in HCP: HTTP ", status))
}

/// A client of HashiCorp Vault's user-password login and key-value store.
#[derive(Clone)]
pub struct VaultClient {
    base_url: String,
    token: Option<String>,
}

impl VaultClient {
    /// The client token, if logged in.
    pub closed spec fn token_view(&self) -> Option<Seq<char>> {
        match self.token {
            Some(t) => Some(t@),
            None => None,
        }
    }

    /// The server's base URL.
    pub closed spec fn base(&self) -> Seq<char> {
        self.base_url@
    }

    /// A client that is not logged in.
    pub fn new(base_url: &str) -> (c: Self)
        ensures
            c.token_view() is None,
            c.base() == base_url@,
    {
        VaultClient { base_url: owned(base_url), token: None }
    }

    /// Whether a client token is held.
    pub fn is_authenticated(&self) -> (b: bool)
        ensures
            b == self.token_view() is Some,
    {
        self.token.is_some()
    }

    /// The URL of the user-password login of `username`.
    pub fn login_url(&self, username: &str) -> (u: String)
        ensures
            u@ == self.base() + "/v1/auth/userpass/login/"@ + username@,
    {
        concat3(self.base_url.as_str(), "/v1/auth/userpass/login/", username)
    }

    /// The URL of a key-value secret.
    pub fn kv_url(&self, path: &str) -> (u: String)
        ensures
            u@ == self.base() + "/v1/kv/"@ + path@,
    {
        concat3(self.base_url.as_str(), "/v1/kv/", path)
    }

    /// Keeps the client token of a successful login.
    pub fn set_token(&mut self, client_token: String)
        ensures
            final(self).token_view() == Some(client_token@),
            final(self).base() == old(self).base(),
    {
        self.token = Some(client_token);
    }

    /// The token to send, or the error of a client that is not logged in.
    pub fn require_token(&self) -> (r: Result<String, AppError>)
        ensures
            match self.token_view() {
                Some(t) => r is Ok && r->Ok_0@ == t,
                None => r is Err && r->Err_0 is AuthenticationError
                    && r->Err_0->AuthenticationError_0@ == "Not authenticated with Vault"@,
            },
    {
        match &self.token {
            Some(t) => Ok(t.clone()),
            None => Err(AppError::AuthenticationError(owned("Not authenticated with Vault"))),
        }
    }
}

/// The error of a Vault request that could not be sent.
pub fn vault_connect_error(rendered: &str) -> (e: AppError)
    ensures
        e == AppError::NetworkError(e->NetworkError_0) && e->NetworkError_0@ == "Failed to connect to Vault: "@ + rendered@,
{
    AppError::NetworkError(concat2("Failed to connect to Vault: ", rendered))
}

/// The error of a refused Vault login.
pub fn vault_login_failure(status: &str) -> (e: AppError)
    ensures
        e == AppError::AuthenticationError(e->AuthenticationError_0)
            && e->AuthenticationError_0@ == "Failed to authenticate with Vault: HTTP "@ + status@,
{
    AppError::AuthenticationError(concat2("Failed to authenticate with Vault: HTTP ", status))
}

/// The error of an unreadable Vault answer: a network error for a login, a
/// server error for a read.
pub fn vault_invalid_response(rendered: &str, during_login: bool) -> (e: AppError)
    ensures
        during_login ==> e == AppError::NetworkError(e->NetworkError_0) && e->NetworkError_0@ == "Invalid Vault response: "@ + rendered@,
        !during_login ==> e == AppError::ServerError(e->ServerError_0) && e->ServerError_0@ == "Invalid Vault response: "@ + rendered@,
{
    if during_login {
        AppError::NetworkError(concat2("Invalid Vault response: ", rendered))
    } else {
        AppError::ServerError(concat2("Invalid Vault response: ", rendered))
    }
}

/// The error of a failed store of a secret.
pub fn vault_store_failure(status: &str) -> (e: AppError)
    ensures
        e == AppError::ServerError(e->ServerError_0) && e->ServerError_0@ == "Failed to store secret in Vault: HTTP "@ + status@,
{
    AppError::ServerError(concat2("Failed to store secret in Vault: HTTP ", status))
}

/// The error of a failed read: not found for 404, otherwise a server error.
pub fn vault_get_failure(status_code: u16, status: &str, path: &str) -> (e: AppError)
    ensures
        status_code == 404 ==> e == AppError::NotFoundError(e->NotFoundError_0) && e->NotFoundError_0@ == "Secret not found at path: "@ + path@,
        status_code != 404 ==> e == AppError::ServerError(e->ServerError_0)
            && e->ServerError_0@ == "Failed to retrieve secret from Vault: HTTP "@ + status@,
{
    if status_code == 404 {
        AppError::NotFoundError(concat2("Secret not found at path: ", path))
    } else {
        AppError::ServerError(concat2("Failed to retrieve secret from Vault: HTTP ", status))
    }
}

/// The value stored under `key` in the entries of a secret (keys are
/// distinct), or the error naming the key and path.
pub fn secret_value(entries: &Vec<(String, String)>, key: &str, path: &str) -> (r: Result<String, AppError>)
    ensures
        (exists|i: int| 0 <= i < entries@.len() && #[trigger] entries@[i].0@ == key@) ==> (r is Ok
            && exists|i: int| 0 <= i < entries@.len() && #[trigger] entries@[i].0@ == key@ && r->Ok_0@ == entries@[i].1@),
        !(exists|i: int| 0 <= i < entries@.len() && #[trigger] entries@[i].0@ == key@) ==> (r is Err
            && r->Err_0 is NotFoundError
            && r->Err_0->NotFoundError_0@ == "Key '"@ + key@ + "' not found in secret at path: "@ + path@),
{
    let mut i: usize = 0;
    while i < entries.len()
        invariant
            i <= entries@.len(),
            forall|j: int| 0 <= j < i ==> #[trigger] entries@[j].0@ != key@,
        decreases entries.len() - i,
    {
        if crate::text::str_eq(entries[i].0.as_str(), key) {
            return Ok(entries[i].1.clone());
        }
        i = i + 1;
    }
    let mut m = concat3("Key '", key, "' not found in secret at path: ");
    m.append(path);
    Err(AppError::NotFoundError(m))
}

} // verus!
