//! An SSH certificate authority: resolves an issuance profile from identity
//! claims, builds certificate options under a fixed precedence, and signs
//! them with one of a registry of named signing backends.

pub mod attrs;
pub mod ssh;
pub mod options;
pub mod claims;
pub mod settings;
pub mod authority;
pub mod request;
