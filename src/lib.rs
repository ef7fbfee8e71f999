//! A group broadcast hub: clients join named groups, and every message
//! published into a group fans out to its members, filtered per session by
//! table number. Authenticated sessions take their identity from a verified
//! bearer token.

pub mod auth;
pub mod channel;
pub mod ingest;
pub mod message;
pub mod registry;
pub mod session;
pub mod text;
