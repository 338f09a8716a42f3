//! Failure taxonomy for a bonding-curve trading client.
//!
//! The crate defines one closed error type, [`error::ClientError`], covering
//! every failure path of the surrounding client: bonding-curve lookups and
//! operations, binary and JSON (de)serialization, the chain RPC client, the
//! publish/subscribe client, metadata upload, and a handful of operational
//! failures (timeouts, duplicate events, closed channels). Each variant has a
//! stable one-line rendering, the variants that wrap an upstream error expose
//! it unchanged as a chained cause, and the native error types of the RPC,
//! publish/subscribe and JSON libraries convert into the taxonomy.

pub mod error;
mod upstream;
