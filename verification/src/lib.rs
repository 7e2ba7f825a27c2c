//! Verified core of a small media-upload backend: bearer-token verification
//! against remotely rotated public keys, with a key cache per token kind,
//! plus the pure decision logic around uploads and configuration.

pub mod auth;
pub mod claims;
pub mod config;
pub mod errors;
pub mod identity;
pub mod jwt;
pub mod keycache;
pub mod laws;
pub mod outside;
pub mod policy;
pub mod strings;
pub mod upload;
