//! Host-side processing of inter-chain channel and packet messages: the
//! channel handshake and packet lifecycle state machine, the message router,
//! and the fungible-token transfer application bound to it.

// Values: identifiers, versions, amounts, and the channel and packet model.
pub mod ident;
pub mod version;
pub mod amount;
pub mod channel;
pub mod msgs;
pub mod error;

// Outside computations: digests and JSON.
pub mod hashing;
pub mod json;

// The host store.
pub mod table;
pub mod context;
pub mod paths;
pub mod keeper;

// Handlers of the core.
pub mod clients;
pub mod chan_handlers;
pub mod packet_handlers;
pub mod routing;

// The transfer application.
pub mod bank;
pub mod transfer;
pub mod transfer_relay;
pub mod transfer_send;

// Laws over several steps.
pub mod laws;
