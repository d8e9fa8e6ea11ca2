//! A JMAP mail client without I/O of its own, and the tool router on top of it.
//!
//! Every operation is split in two halves around the network: one half builds
//! the HTTP request to send, the other interprets the reply that came back.
//! The caller owns the transport and hands replies in as plain values.
//!
//! - `json`: the model of a JSON value, and what is taken on trust of
//!   `serde_json`.
//! - `values`: building and reading the JSON shapes of the protocol.
//! - `http`: requests and replies as values.
//! - `error`: the errors and their descriptions.
//! - `session`: from the session resource to a client.
//! - `batch`: the request envelope of a batch and the decoding of its
//!   response.
//! - `jmap`: the client and its mail operations.
//! - `send`: the sending of a message, in three exchanges.
//! - `server`: the router of the mail tools.

pub mod batch;
pub mod error;
pub mod http;
pub mod jmap;
pub mod json;
pub mod send;
pub mod server;
pub mod session;
pub mod values;
