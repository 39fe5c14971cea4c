//! A unified OAuth connection library: one `Provider` contract per vendor,
//! a lifecycle protocol for establishing and refreshing connections, and
//! scrubbing of raw vendor payloads before they may be stored or logged.
use vstd::prelude::*;

mod json;
mod notion;
mod provider;
mod registry;

verus! {

pub use json::{lemma_remove_key_idempotent, obj_get, obj_has_key, obj_lookup, remove_key, remove_obj_key, Json};
pub use notion::{
    base64_of, basic_auth_input, lemma_scrubbed_raw_json_idempotent, malformed_payload_message,
    missing_token_message, notion_token_endpoint, refresh_unsupported_reason,
    NotionConnectionProvider,
};
pub use provider::{
    access_token_key, finalize_body_shape, response_token, Connection, ConnectionProvider,
    ConnectionStatus, Credential, FinalizeResult, Provider, ProviderError, RefreshResult,
    TokenRequest, TransportError,
};
pub use registry::ProviderRegistry;

} // verus!
