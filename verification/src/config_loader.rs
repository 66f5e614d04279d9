//! The complete application configuration, its defaults, and the checks
//! that it must pass before the service starts. Sampling rates are kept in
//! millionths so that every field is an exact value.
use vstd::prelude::*;
use crate::error::AppError;
use crate::store::{keys_distinct, map_of, KeyedStore};
use crate::text::{is_ws, blank, has_prefix, has_infix, join, views, is_blank, starts_with, contains, str_eq, owned, join_strings};

verus! {

/// Connection pool settings of a database.
#[derive(Debug, Clone, Copy)]
pub struct DbPoolConfig {
    pub size: usize,
    pub connection_timeout: u64,
}

/// One SurrealDB database.
#[derive(Debug, Clone)]
pub struct SurrealDbConfig {
    pub endpoint: String,
    pub username: String,
    pub password: String,
    pub namespace: String,
    pub database: String,
    pub pool: DbPoolConfig,
}

/// The user and wallet databases.
#[derive(Debug, Clone)]
pub struct DatabasesConfig {
    pub user_db: SurrealDbConfig,
    pub wallet_db: SurrealDbConfig,
}

/// Server timeouts in milliseconds.
#[derive(Debug, Clone, Copy)]
pub struct ServerTimeouts {
    pub read: u64,
    pub write: u64,
    pub idle: u64,
    pub keep_alive: u64,
}

/// The HTTP server.
#[derive(Debug, Clone)]
pub struct ServerConfig {
    pub host: String,
    pub port: u16,
    pub timeouts: ServerTimeouts,
    pub body_limit: usize,
}

/// Token signing settings.
#[derive(Debug, Clone)]
pub struct JwtConfig {
    pub secret: String,
    pub expiry_hours: u64,
    pub algorithm: String,
}

/// Cross-origin settings.
#[derive(Debug, Clone)]
pub struct CorsConfig {
    pub allowed_origins: Vec<String>,
    pub allowed_methods: Vec<String>,
    pub allowed_headers: Vec<String>,
}

/// One rate limit.
#[derive(Debug, Clone, Copy)]
pub struct RateLimitSettings {
    pub max_attempts: usize,
    pub window_duration: u64,
    pub block_duration: Option<u64>,
}

/// Per-path API limits: a map from path to limit, each path once.
#[derive(Debug)]
pub struct PathLimits {
    store: KeyedStore<usize>,
}

impl PathLimits {
    #[verifier::type_invariant]
    spec fn inv(&self) -> bool {
        self.store.wf()
    }

    /// The limit of each path.
    pub closed spec fn view(&self) -> Map<Seq<char>, usize> {
        self.store.view()
    }

    /// No path-specific limits.
    pub fn new() -> (r: Self)
        ensures
            r@ == Map::<Seq<char>, usize>::empty(),
    {
        PathLimits { store: KeyedStore::new() }
    }

    /// Sets the limit of `path`, replacing an earlier one.
    pub fn insert(&mut self, path: &str, limit: usize)
        ensures
            final(self)@ == old(self)@.insert(path@, limit),
    {
        proof {
            use_type_invariant(&*self);
        }
        let mut store = KeyedStore::new();
        std::mem::swap(&mut store, &mut self.store);
        store.insert(path, limit);
        self.store = store;
    }

    /// The limits of the given (path, limit) pairs; a later pair for the
    /// same path replaces an earlier one.
    pub fn from_pairs(pairs: &Vec<(String, usize)>) -> (r: Self)
        ensures
            r@ == map_of(pairs@),
    {
        let mut r = PathLimits::new();
        let mut i: usize = 0;
        while i < pairs.len()
            invariant
                i <= pairs@.len(),
                r@ == map_of(pairs@.take(i as int)),
            decreases pairs.len() - i,
        {
            assert(pairs@.take(i + 1).drop_last() =~= pairs@.take(i as int));
            r.insert(pairs[i].0.as_str(), pairs[i].1);
            i = i + 1;
        }
        assert(pairs@.take(i as int) =~= pairs@);
        r
    }

    /// The (path, limit) pairs: each path once, denoting the limits.
    pub fn entries(&self) -> (v: &Vec<(String, usize)>)
        ensures
            keys_distinct(v@),
            map_of(v@) == self@,
    {
        proof {
            use_type_invariant(self);
        }
        self.store.entries()
    }
}

impl Clone for PathLimits {
    /// The same limits.
    fn clone(&self) -> (r: Self)
        ensures
            r@ == self@,
    {
        PathLimits::from_pairs(self.entries())
    }
}

/// API and login limits, and per-path API limits.
#[derive(Debug, Clone)]
pub struct RateLimitingConfig {
    pub api: RateLimitSettings,
    pub login: RateLimitSettings,
    pub paths: PathLimits,
}

/// Argon2 hashing parameters.
#[derive(Debug, Clone)]
pub struct Argon2Config {
    pub variant: String,
    pub memory: u32,
    pub iterations: u32,
    pub parallelism: u32,
}

/// Password rules and hashing parameters.
#[derive(Debug, Clone)]
pub struct PasswordConfig {
    pub min_length: usize,
    pub require_uppercase: bool,
    pub require_lowercase: bool,
    pub require_number: bool,
    pub require_special: bool,
    pub argon2: Argon2Config,
}

/// Security settings.
#[derive(Debug, Clone)]
pub struct SecurityConfig {
    pub jwt: JwtConfig,
    pub cors: CorsConfig,
    pub rate_limiting: RateLimitingConfig,
    pub password: PasswordConfig,
}

/// Error reporting; rates in millionths (1 000 000 is every event).
#[derive(Debug, Clone)]
pub struct SentryConfig {
    pub dsn: String,
    pub sample_rate_millionths: u32,
    pub traces_sample_rate_millionths: u32,
    pub environment: String,
}

/// Log output.
#[derive(Debug, Clone)]
pub struct LoggingConfig {
    pub level: String,
    pub format: String,
    pub hide_secrets: bool,
}

/// Monitoring settings.
#[derive(Debug, Clone)]
pub struct MonitoringConfig {
    pub sentry: SentryConfig,
    pub logging: LoggingConfig,
}

/// Redis connection.
#[derive(Debug, Clone)]
pub struct RedisConfig {
    pub url: String,
    pub pool_size: usize,
    pub connection_timeout: u64,
    pub prefix: Option<String>,
}

/// HCP Vault Secrets access.
#[derive(Debug, Clone)]
pub struct HcpSecretsConfig {
    pub base_url: String,
    pub org_id: String,
    pub project_id: String,
    pub app_name: String,
    pub client_id: String,
    pub client_secret: String,
}

/// The complete application configuration.
#[derive(Debug, Clone)]
pub struct AppConfig {
    pub environment: String,
    pub database: DatabasesConfig,
    pub server: ServerConfig,
    pub security: SecurityConfig,
    pub monitoring: MonitoringConfig,
    pub redis: Option<RedisConfig>,
    pub hcp_secrets: Option<HcpSecretsConfig>,
}

/// `msg` alone when `cond` holds, nothing otherwise.
pub open spec fn problem_if(cond: bool, msg: Seq<char>) -> Seq<Seq<char>> {
    if cond { seq![msg] } else { Seq::empty() }
}

/// Problems with one database's settings, in the order they are reported.
pub open spec fn database_errors(db: SurrealDbConfig, name: Seq<char>, production: bool) -> Seq<Seq<char>> {
    (if blank(db.endpoint@) {
        seq![name + " endpoint cannot be empty"@]
    } else {
        problem_if(production && !has_prefix(db.endpoint@, "wss://"@) && !has_infix(db.endpoint@, "memory"@),
            name + " should use a secure 'wss://' database connection in production"@)
    })
    + problem_if(blank(db.namespace@), name + " namespace cannot be empty"@)
    + problem_if(blank(db.database@), name + " database name cannot be empty"@)
    + problem_if(production && db.username@ == "root"@, "Using default 'root' username in "@ + name + " in production is insecure"@)
    + problem_if(production && db.password@ == "root"@, "Using default 'root' password in "@ + name + " in production is insecure"@)
}

/// Problems with the Redis settings.
pub open spec fn redis_errors(r: Option<RedisConfig>, production: bool) -> Seq<Seq<char>> {
    match r {
        None => Seq::empty(),
        Some(rc) => (if blank(rc.url@) {
            seq!["Redis URL cannot be empty"@]
        } else {
            problem_if(production && !has_prefix(rc.url@, "rediss://"@), "Production should use a secure 'rediss://' Redis connection"@)
        }) + problem_if(rc.pool_size == 0, "Redis pool size must be greater than 0"@),
    }
}

/// Problems with the HCP Secrets settings.
pub open spec fn hcp_errors(h: Option<HcpSecretsConfig>, production: bool) -> Seq<Seq<char>> {
    match h {
        None => problem_if(production, "HCP Secrets configuration is required for production"@),
        Some(hc) => (if blank(hc.base_url@) {
            seq!["HCP Secrets base URL cannot be empty"@]
        } else {
            problem_if(production && !has_prefix(hc.base_url@, "https://"@), "Production should use a secure 'https://' HCP connection"@)
        })
            + problem_if(blank(hc.org_id@), "HCP organization ID cannot be empty"@)
            + problem_if(blank(hc.project_id@), "HCP project ID cannot be empty"@)
            + problem_if(blank(hc.app_name@), "HCP app name cannot be empty"@)
            + problem_if(production && blank(hc.client_id@), "HCP client ID cannot be empty in production"@)
            + problem_if(production && blank(hc.client_secret@), "HCP client secret cannot be empty in production"@),
    }
}

/// The configuration is for production.
pub open spec fn is_production(c: AppConfig) -> bool {
    c.environment@ == "production"@
}

/// Every problem with the configuration, in the order they are reported.
pub open spec fn config_errors(c: AppConfig) -> Seq<Seq<char>> {
    let p = is_production(c);
    database_errors(c.database.user_db, "user_db"@, p)
        + database_errors(c.database.wallet_db, "wallet_db"@, p)
        + problem_if(blank(c.server.host@), "Server host cannot be empty"@)
        + problem_if(c.server.port == 0, "Server port cannot be 0"@)
        + problem_if(p && ((vstd::utf8::encode_utf8(c.security.jwt.secret@).len() as usize) < 32
            || c.security.jwt.secret@ == "your-strong-secret-key-here"@), "JWT secret is not secure for production use"@)
        + problem_if(p && blank(c.monitoring.sentry.dsn@), "Sentry DSN should be configured in production"@)
        + redis_errors(c.redis, p)
        + hcp_errors(c.hcp_secrets, p)
}

/// Appends `msg` to `errors` when `cond` holds.
fn push_when(errors: &mut Vec<String>, cond: bool, msg: String)
    ensures
        views(final(errors)@) == views(old(errors)@) + problem_if(cond, msg@),
{
    let ghost before = views(errors@);
    if cond {
        errors.push(msg);
        assert(views(errors@) =~= before + problem_if(cond, msg@));
    } else {
        assert(views(errors@) =~= before + problem_if(cond, msg@));
    }
}

/// `prefix` followed by `rest`.
fn concat(prefix: &str, rest: &str) -> (r: String)
    ensures
        r@ == prefix@ + rest@,
{
    let mut r = owned(prefix);
    r.append(rest);
    r
}

impl AppConfig {
    /// Appends the problems with one database's settings to `errors`.
    fn validate_database_config(&self, db_config: &SurrealDbConfig, db_name: &str, is_production: bool, errors: &mut Vec<String>)
        ensures
            views(final(errors)@) == views(old(errors)@) + database_errors(*db_config, db_name@, is_production),
    {
        let ghost before = views(errors@);
        if is_blank(db_config.endpoint.as_str()) {
            push_when(errors, true, concat(db_name, " endpoint cannot be empty"));
        } else {
            let insecure = is_production && !starts_with(db_config.endpoint.as_str(), "wss://")
                && !contains(db_config.endpoint.as_str(), "memory");
            push_when(errors, insecure, concat(db_name, " should use a secure 'wss://' database connection in production"));
        }
        let ghost after_endpoint = views(errors@);
        push_when(errors, is_blank(db_config.namespace.as_str()), concat(db_name, " namespace cannot be empty"));
        push_when(errors, is_blank(db_config.database.as_str()), concat(db_name, " database name cannot be empty"));
        let root_user = is_production && str_eq(db_config.username.as_str(), "root");
        let mut msg = concat("Using default 'root' username in ", db_name);
        msg.append(" in production is insecure");
        push_when(errors, root_user, msg);
        let root_password = is_production && str_eq(db_config.password.as_str(), "root");
        let mut msg = concat("Using default 'root' password in ", db_name);
        msg.append(" in production is insecure");
        push_when(errors, root_password, msg);
        assert(views(errors@) =~= before + database_errors(*db_config, db_name@, is_production));
    }

    /// Appends the problems with the server, token, monitoring settings.
    fn validate_core(&self, production: bool, errors: &mut Vec<String>)
        ensures
            views(final(errors)@) == views(old(errors)@)
                + problem_if(blank(self.server.host@), "Server host cannot be empty"@)
                + problem_if(self.server.port == 0, "Server port cannot be 0"@)
                + problem_if(production && ((vstd::utf8::encode_utf8(self.security.jwt.secret@).len() as usize) < 32
                    || self.security.jwt.secret@ == "your-strong-secret-key-here"@), "JWT secret is not secure for production use"@)
                + problem_if(production && blank(self.monitoring.sentry.dsn@), "Sentry DSN should be configured in production"@),
    {
        let ghost before = views(errors@);
        push_when(errors, is_blank(self.server.host.as_str()), owned("Server host cannot be empty"));
        let ghost a = views(errors@);
        push_when(errors, self.server.port == 0, owned("Server port cannot be 0"));
        let ghost b = views(errors@);
        let weak_secret = production && (self.security.jwt.secret.as_str().len() < 32
            || str_eq(self.security.jwt.secret.as_str(), "your-strong-secret-key-here"));
        push_when(errors, weak_secret, owned("JWT secret is not secure for production use"));
        let ghost c = views(errors@);
        push_when(errors, production && is_blank(self.monitoring.sentry.dsn.as_str()),
            owned("Sentry DSN should be configured in production"));
        assert(views(errors@) =~= before
                + problem_if(blank(self.server.host@), "Server host cannot be empty"@)
                + problem_if(self.server.port == 0, "Server port cannot be 0"@)
                + problem_if(production && ((vstd::utf8::encode_utf8(self.security.jwt.secret@).len() as usize) < 32
                    || self.security.jwt.secret@ == "your-strong-secret-key-here"@), "JWT secret is not secure for production use"@)
                + problem_if(production && blank(self.monitoring.sentry.dsn@), "Sentry DSN should be configured in production"@));
    }

    /// Appends the problems with the Redis settings.
    fn validate_redis(&self, production: bool, errors: &mut Vec<String>)
        ensures
            views(final(errors)@) == views(old(errors)@) + redis_errors(self.redis, production),
    {
        let ghost before = views(errors@);
        match &self.redis {
            Some(redis_config) => {
                if is_blank(redis_config.url.as_str()) {
                    push_when(errors, true, owned("Redis URL cannot be empty"));
                } else {
                    push_when(errors, production && !starts_with(redis_config.url.as_str(), "rediss://"),
                        owned("Production should use a secure 'rediss://' Redis connection"));
                }
                push_when(errors, redis_config.pool_size == 0, owned("Redis pool size must be greater than 0"));
            },
            None => {},
        }
        assert(views(errors@) =~= before + redis_errors(self.redis, production));
    }

    /// Appends the problems with the HCP Secrets settings.
    #[verifier::rlimit(40)]
    fn validate_hcp(&self, production: bool, errors: &mut Vec<String>)
        ensures
            views(final(errors)@) == views(old(errors)@) + hcp_errors(self.hcp_secrets, production),
    {
        let ghost before = views(errors@);
        match &self.hcp_secrets {
            Some(hcp) => {
                if is_blank(hcp.base_url.as_str()) {
                    push_when(errors, true, owned("HCP Secrets base URL cannot be empty"));
                } else {
                    push_when(errors, production && !starts_with(hcp.base_url.as_str(), "https://"),
                        owned("Production should use a secure 'https://' HCP connection"));
                }
                let ghost a = views(errors@);
                push_when(errors, is_blank(hcp.org_id.as_str()), owned("HCP organization ID cannot be empty"));
                push_when(errors, is_blank(hcp.project_id.as_str()), owned("HCP project ID cannot be empty"));
                push_when(errors, is_blank(hcp.app_name.as_str()), owned("HCP app name cannot be empty"));
                push_when(errors, production && is_blank(hcp.client_id.as_str()),
                    owned("HCP client ID cannot be empty in production"));
                push_when(errors, production && is_blank(hcp.client_secret.as_str()),
                    owned("HCP client secret cannot be empty in production"));
            },
            None => {
                push_when(errors, production, owned("HCP Secrets configuration is required for production"));
            },
        }
        assert(views(errors@) =~= before + hcp_errors(self.hcp_secrets, production));
    }

    /// Checks the whole configuration; every problem found is listed in the error.
    pub fn validate(&self) -> (r: Result<(), AppError>)
        ensures
            r is Ok <==> config_errors(*self).len() == 0,
            r matches Err(e) ==> e is ConfigError
                && e->ConfigError_0@ == "Invalid configuration: "@ + join(config_errors(*self), ", "@),
    {
        let mut errors: Vec<String> = Vec::new();
        let production = str_eq(self.environment.as_str(), "production");
        self.validate_database_config(&self.database.user_db, "user_db", production, &mut errors);
        self.validate_database_config(&self.database.wallet_db, "wallet_db", production, &mut errors);
        self.validate_core(production, &mut errors);
        self.validate_redis(production, &mut errors);
        self.validate_hcp(production, &mut errors);
        assert(views(errors@) =~= config_errors(*self));
        if errors.len() > 0 {
            let joined = join_strings(&errors, ", ");
            return Err(AppError::ConfigError(concat("Invalid configuration: ", joined.as_str())));
        }
        Ok(())
    }
}

/// The built-in development settings.
pub open spec fn is_default_config(c: AppConfig) -> bool {
    &&& c.environment@ == "development"@
    &&& c.database.user_db.endpoint@ == "ws://localhost:8000"@
    &&& c.database.user_db.username@ == "root"@
    &&& c.database.user_db.password@ == "root"@
    &&& c.database.user_db.namespace@ == "userDb"@
    &&& c.database.user_db.database@ == "cryptoBank"@
    &&& c.database.user_db.pool == (DbPoolConfig { size: 5, connection_timeout: 5000 })
    &&& c.database.wallet_db.endpoint@ == "ws://localhost:8000"@
    &&& c.database.wallet_db.username@ == "root"@
    &&& c.database.wallet_db.password@ == "root"@
    &&& c.database.wallet_db.namespace@ == "walletDb"@
    &&& c.database.wallet_db.database@ == "cryptoBank"@
    &&& c.database.wallet_db.pool == (DbPoolConfig { size: 10, connection_timeout: 5000 })
    &&& c.server.host@ == "0.0.0.0"@
    &&& c.server.port == 3000
    &&& c.server.timeouts == (ServerTimeouts { read: 30000, write: 30000, idle: 60000, keep_alive: 15000 })
    &&& c.server.body_limit == 1048576
    &&& c.security.jwt.secret@ == "default-insecure-jwt-secret-do-not-use-in-production"@
    &&& c.security.jwt.expiry_hours == 24
    &&& c.security.jwt.algorithm@ == "HS256"@
    &&& views(c.security.cors.allowed_origins@) == seq!["*"@]
    &&& views(c.security.cors.allowed_methods@) == seq!["GET"@, "POST"@, "OPTIONS"@]
    &&& views(c.security.cors.allowed_headers@) == seq!["Content-Type"@, "Authorization"@]
    &&& c.security.rate_limiting.api == (RateLimitSettings { max_attempts: 100, window_duration: 60, block_duration: None })
    &&& c.security.rate_limiting.login == (RateLimitSettings { max_attempts: 5, window_duration: 300, block_duration: Some(900) })
    &&& c.security.rate_limiting.paths@ == Map::<Seq<char>, usize>::empty()
    &&& c.security.password.min_length == 8
    &&& c.security.password.require_uppercase
    &&& c.security.password.require_lowercase
    &&& c.security.password.require_number
    &&& c.security.password.require_special
    &&& c.security.password.argon2.variant@ == "argon2id"@
    &&& c.security.password.argon2.memory == 65536
    &&& c.security.password.argon2.iterations == 3
    &&& c.security.password.argon2.parallelism == 4
    &&& c.monitoring.sentry.dsn@ == ""@
    &&& c.monitoring.sentry.sample_rate_millionths == 1000000
    &&& c.monitoring.sentry.traces_sample_rate_millionths == 200000
    &&& c.monitoring.sentry.environment@ == "development"@
    &&& c.monitoring.logging.level@ == "info"@
    &&& c.monitoring.logging.format@ == "json"@
    &&& c.monitoring.logging.hide_secrets
    &&& c.redis matches Some(r) && r.url@ == "redis://localhost:6379"@ && r.pool_size == 10
        && r.connection_timeout == 5000 && (r.prefix matches Some(p) && p@ == "app"@)
    &&& c.hcp_secrets matches Some(h) && h.base_url@ == "https://api.cloud.hashicorp.com"@
        && h.org_id@ == ""@ && h.project_id@ == ""@ && h.app_name@ == "wallet"@
        && h.client_id@ == ""@ && h.client_secret@ == ""@
}

fn surreal_db(endpoint: &str, namespace: &str, pool_size: usize) -> (r: SurrealDbConfig)
    ensures
        r.endpoint@ == endpoint@,
        r.username@ == "root"@,
        r.password@ == "root"@,
        r.namespace@ == namespace@,
        r.database@ == "cryptoBank"@,
        r.pool == (DbPoolConfig { size: pool_size, connection_timeout: 5000 }),
{
    SurrealDbConfig {
        endpoint: owned(endpoint),
        username: owned("root"),
        password: owned("root"),
        namespace: owned(namespace),
        database: owned("cryptoBank"),
        pool: DbPoolConfig { size: pool_size, connection_timeout: 5000 },
    }
}

impl AppConfig {
    /// The built-in development settings. They do not pass `validate` as they
    /// stand: the HCP organization and project are left to be filled in.
    pub fn default() -> (c: Self)
        ensures
            is_default_config(c),
            config_errors(c) == seq!["HCP organization ID cannot be empty"@, "HCP project ID cannot be empty"@],
    {
        let c = AppConfig {
            environment: owned("development"),
            database: DatabasesConfig {
                user_db: surreal_db("ws://localhost:8000", "userDb", 5),
                wallet_db: surreal_db("ws://localhost:8000", "walletDb", 10),
            },
            server: ServerConfig {
                host: owned("0.0.0.0"),
                port: 3000,
                timeouts: ServerTimeouts { read: 30000, write: 30000, idle: 60000, keep_alive: 15000 },
                body_limit: 1048576,
            },
            security: SecurityConfig {
                jwt: JwtConfig {
                    secret: owned("default-insecure-jwt-secret-do-not-use-in-production"),
                    expiry_hours: 24,
                    algorithm: owned("HS256"),
                },
                cors: CorsConfig {
                    allowed_origins: vec![owned("*")],
                    allowed_methods: vec![owned("GET"), owned("POST"), owned("OPTIONS")],
                    allowed_headers: vec![owned("Content-Type"), owned("Authorization")],
                },
                rate_limiting: RateLimitingConfig {
                    api: RateLimitSettings { max_attempts: 100, window_duration: 60, block_duration: None },
                    login: RateLimitSettings { max_attempts: 5, window_duration: 300, block_duration: Some(900) },
                    paths: PathLimits::new(),
                },
                password: PasswordConfig {
                    min_length: 8,
                    require_uppercase: true,
                    require_lowercase: true,
                    require_number: true,
                    require_special: true,
                    argon2: Argon2Config { variant: owned("argon2id"), memory: 65536, iterations: 3, parallelism: 4 },
                },
            },
            monitoring: MonitoringConfig {
                sentry: SentryConfig {
                    dsn: owned(""),
                    sample_rate_millionths: 1000000,
                    traces_sample_rate_millionths: 200000,
                    environment: owned("development"),
                },
                logging: LoggingConfig { level: owned("info"), format: owned("json"), hide_secrets: true },
            },
            redis: Some(RedisConfig {
                url: owned("redis://localhost:6379"),
                pool_size: 10,
                connection_timeout: 5000,
                prefix: Some(owned("app")),
            }),
            hcp_secrets: Some(HcpSecretsConfig {
                base_url: owned("https://api.cloud.hashicorp.com"),
                org_id: owned(""),
                project_id: owned(""),
                app_name: owned("wallet"),
                client_id: owned(""),
                client_secret: owned(""),
            }),
        };
        assert(views(c.security.cors.allowed_origins@) =~= seq!["*"@]);
        assert(views(c.security.cors.allowed_methods@) =~= seq!["GET"@, "POST"@, "OPTIONS"@]);
        assert(views(c.security.cors.allowed_headers@) =~= seq!["Content-Type"@, "Authorization"@]);
        proof {
            lemma_default_errors(c);
        }
        c
    }
}

proof fn lemma_default_errors(c: AppConfig)
    requires
        is_default_config(c),
    ensures
        config_errors(c) == seq!["HCP organization ID cannot be empty"@, "HCP project ID cannot be empty"@],
{
    reveal_strlit("development");
    reveal_strlit("production");
    reveal_strlit("ws://localhost:8000");
    reveal_strlit("userDb");
    reveal_strlit("walletDb");
    reveal_strlit("cryptoBank");
    reveal_strlit("0.0.0.0");
    reveal_strlit("redis://localhost:6379");
    reveal_strlit("https://api.cloud.hashicorp.com");
    reveal_strlit("wallet");
    reveal_strlit("");
    assert(!blank(c.database.user_db.endpoint@)) by { assert(!is_ws(c.database.user_db.endpoint@[0])); }
    assert(!blank(c.database.wallet_db.endpoint@)) by { assert(!is_ws(c.database.wallet_db.endpoint@[0])); }
    assert(!blank(c.database.user_db.namespace@)) by { assert(!is_ws(c.database.user_db.namespace@[0])); }
    assert(!blank(c.database.wallet_db.namespace@)) by { assert(!is_ws(c.database.wallet_db.namespace@[0])); }
    assert(!blank(c.database.user_db.database@)) by { assert(!is_ws(c.database.user_db.database@[0])); }
    assert(!blank(c.database.wallet_db.database@)) by { assert(!is_ws(c.database.wallet_db.database@[0])); }
    assert(!blank(c.server.host@)) by { assert(!is_ws(c.server.host@[0])); }
    let r = c.redis->0;
    let h = c.hcp_secrets->0;
    assert(!blank(r.url@)) by { assert(!is_ws(r.url@[0])); }
    assert(!blank(h.base_url@)) by { assert(!is_ws(h.base_url@[0])); }
    assert(!blank(h.app_name@)) by { assert(!is_ws(h.app_name@[0])); }
    assert(blank(h.org_id@));
    assert(blank(h.project_id@));
    assert(c.environment@ != "production"@) by {
        assert(c.environment@[0] != "production"@[0]);
    }
    assert(database_errors(c.database.user_db, "user_db"@, false) =~= Seq::empty());
    assert(database_errors(c.database.wallet_db, "wallet_db"@, false) =~= Seq::empty());
    assert(redis_errors(c.redis, false) =~= Seq::empty());
    assert(hcp_errors(c.hcp_secrets, false) =~= seq!["HCP organization ID cannot be empty"@, "HCP project ID cannot be empty"@]);
    assert(config_errors(c) =~= seq!["HCP organization ID cannot be empty"@, "HCP project ID cannot be empty"@]);
}

} // verus!
