//! Verified core of an OAuth 2.0 authorization server: credential checks,
//! the one-time authorization-code store, refresh-token rotation and the
//! replies of the login, authorize and token endpoints.

pub mod authorize;
pub mod client;
pub mod clock;
pub mod codes;
pub mod config;
pub mod laws;
pub mod model;
pub mod password;
pub mod store;
pub mod text;
pub mod token;
pub mod users;
