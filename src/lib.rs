//! Token-based authentication and role authorization for a small resource API.

pub mod error;
pub mod text;
pub mod claims;
pub mod token;
pub mod middleware;
pub mod hasher;
pub mod identity;
