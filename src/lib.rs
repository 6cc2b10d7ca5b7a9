//! Authentication and session identity: a user store with unique, normalised
//! usernames, bcrypt password hashing, sessions bound to a snapshot of the
//! user's credential hash, and the login / signup / logout protocol.

pub mod config;
pub mod hasher;
pub mod user;
pub mod store;
pub mod session;
pub mod backend;
pub mod flow;
pub mod laws;
