//! Authentication core: credential rows with hashed passwords, sealed session
//! tokens, the identity guard and the login / register / logout decisions.
//!
//! Storage and transport are the caller's business: every function here goes
//! from plain values to plain values.

pub mod credentials;
pub mod error;
pub mod flow;
pub mod guard;
pub mod hashing;
pub mod laws;
pub mod session;
pub mod text;
