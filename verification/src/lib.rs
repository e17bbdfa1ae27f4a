//! Session-based authentication on top of Discord OAuth2.
//!
//! The library holds the decisions of the auth service: how configuration
//! values are checked, how session keys are named, how refresh tokens are
//! sealed, how the login, callback, refresh, `/me` and logout flows react to
//! each answer of Redis, Postgres and the OAuth provider, and what they answer
//! the browser.

pub mod text;
pub mod keys;
pub mod models;
pub mod crypto;
pub mod config;
pub mod http;
pub mod callback;
pub mod refresh;
pub mod me;
pub mod oauth;
pub mod login;
pub mod commissions;
pub mod sessions;
