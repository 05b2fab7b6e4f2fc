//! Credential issuance, validation and authorization for a bearer-key API.

pub mod auth;
pub mod cache;
pub mod errors;
pub mod handlers;
pub mod hasher;
pub mod models;
pub mod routing;
pub mod text;
