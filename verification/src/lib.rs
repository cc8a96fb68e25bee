//! Trust and integrity core of a conversation-sharing service: signing-key
//! caching, bearer-token validation, session identity, and the digest, quota
//! and soft-delete policy of the conversation store.

pub mod conversation;
pub mod digest;
pub mod keys;
pub mod laws;
pub mod session;
pub mod store;
pub mod token;
