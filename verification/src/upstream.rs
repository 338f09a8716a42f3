//! Trusted boundary to the upstream error types.
//!
//! The taxonomy treats the upstream libraries' error types as opaque values:
//! nothing inspects their structure, only their one-line rendering is ever
//! read. Each declaration below makes one such type visible to the verifier,
//! and each wrapper extracts that rendering. The wrappers promise nothing of
//! the extracted text: an upstream error may embed an I/O error whose message
//! comes from the operating system, so the text is not a function of the
//! value alone.

use vstd::prelude::*;

verus! {

#[verifier::external_type_specification]
#[verifier::external_body]
pub struct ExSolanaClientError(solana_rpc_client_api::client_error::Error);

#[verifier::external_type_specification]
#[verifier::external_body]
pub struct ExPubsubClientError(solana_pubsub_client::pubsub_client::PubsubClientError);

#[verifier::external_type_specification]
#[verifier::external_body]
pub struct ExJsonError(serde_json::Error);

#[verifier::external_type_specification]
#[verifier::external_body]
pub struct ExIoError(std::io::Error);

/// Relies on the `Display` impl of `solana_rpc_client_api::client_error::Error`,
/// which renders the error's kind, to turn an RPC client error into text.
#[verifier::external_body]
pub(crate) fn solana_client_error_text(e: &solana_rpc_client_api::client_error::Error) -> String {
    e.to_string()
}

/// Relies on the `Display` impl of
/// `solana_pubsub_client::pubsub_client::PubsubClientError` to turn a
/// publish/subscribe client error into text.
#[verifier::external_body]
pub(crate) fn pubsub_client_error_text(
    e: &solana_pubsub_client::pubsub_client::PubsubClientError,
) -> String {
    e.to_string()
}

/// Relies on the `Display` impl of `serde_json::Error`, which renders the
/// parse failure with its line and column, to turn a JSON error into text.
#[verifier::external_body]
pub(crate) fn json_error_text(e: &serde_json::Error) -> String {
    e.to_string()
}

/// Relies on the `Display` impl of `std::io::Error` to turn an I/O error
/// into text.
#[verifier::external_body]
pub(crate) fn io_error_text(e: &std::io::Error) -> String {
    e.to_string()
}

} // verus!
