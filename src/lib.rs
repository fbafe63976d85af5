//! Verified core of a desktop sign-in helper: classification of the two
//! OAuth redirect shapes, the two-hop authorization flow with its CSRF checks,
//! the construction of authorization URLs, and the decisions of the
//! credential and accounts-cache layer.

pub mod auth_url;
pub mod client;
pub mod desktop;
pub mod error;
pub mod flow;
pub mod redirect;
pub mod store;
pub mod text;
