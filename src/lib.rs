//! Authentication and session-trust core of a note-taking service: the
//! provider-discovery checks, the pending-login store, the login decision
//! flow, the token trust cache, the session cookie codec, and the naming of
//! the stored documents, each with a verified contract.

pub mod cache;
pub mod codec;
pub mod discovery;
pub mod keyed;
pub mod login;
pub mod session;
pub mod storage;
