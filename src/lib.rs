//! A store-and-forward messaging service: a hybrid-encryption handshake,
//! per-request token authentication, and in-memory session, account and
//! mailbox stores, with the client's half of the protocol.
pub mod account;
pub mod client;
pub mod crypto;
pub mod envelope;
pub mod laws;
pub mod mailbox;
pub mod message;
pub mod packet;
pub mod server;
pub mod session;
