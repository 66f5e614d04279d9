//! Verified core of the StableMint backend: credential handling, authorization,
//! rate limiting, configuration validation, input validation and wallet key
//! protection.
pub mod api_limiter;
pub mod auth_service;
pub mod authn;
pub mod authz;
pub mod config;
pub mod config_loader;
pub mod conn;
pub mod credentials;
pub mod crypto;
pub mod db_error;
pub mod db_service;
pub mod error;
pub mod http_policy;
pub mod jwt;
pub mod logging;
pub mod models;
pub mod password;
pub mod login_limiter;
pub mod redis_limiter;
pub mod secrets;
pub mod store;
pub mod text;
pub mod validation;
