//! Authentication and session lifecycle for a case-management backend:
//! credential hashing, one-time activation codes, session validity and the
//! per-request authentication filter. Persistence, transport and mail delivery
//! are left to the caller, which hands in what it looked up and stores what
//! comes back.

pub mod time;
pub mod text;
pub mod crypto;
pub mod ids;
pub mod config;
pub mod users;
pub mod sessions;
pub mod auth;
pub mod invite;
pub mod directory;
