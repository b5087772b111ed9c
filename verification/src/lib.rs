//! Command-execution layer of a cryptocurrency wallet CLI.
//!
//! The crate turns raw CLI argument strings plus environment-variable
//! overrides into validated domain values (addresses, keys, gas amounts,
//! 32-byte big-endian quantities, call data), builds the JSON-RPC requests a
//! wallet needs (nonce retrieval, raw-transaction broadcast), interprets the
//! node's replies, and imports key files into local storage.  All I/O (the
//! process environment, files, standard streams, the network round trip)
//! stays with the caller; everything here is computation over plain values.

pub mod codec;
pub mod env;
pub mod errors;
pub mod executor;
pub mod keyfile;
pub mod rpc;
pub mod types;
