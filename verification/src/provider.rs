//! The data model of the connection lifecycle and the `Provider` contract.
//!
//! A `Connection` records one link between the platform and a vendor
//! account; a `Credential` is the token material backing it. A vendor
//! adapter implements `Provider`: it finalizes an authorization code into a
//! token, refreshes an expiring token where the vendor supports that, and
//! scrubs secret fields out of a raw vendor payload before the caller may
//! store or log it.
use vstd::prelude::*;

use crate::json::{obj_has_key, obj_lookup, remove_key, Json};

verus! {

/// Identifies a vendor; used as the routing key of the registry.
#[derive(Clone, Copy, PartialEq, Eq, Structural, Debug)]
pub enum ConnectionProvider {
    Notion,
}

/// The lifecycle state of a connection.
#[derive(Clone, Copy, PartialEq, Eq, Structural, Debug)]
pub enum ConnectionStatus {
    Pending,
    Finalized,
    Unhealthy,
}

/// One established (or in-progress) link between the platform and a vendor
/// account. Mutated only through the provider lifecycle calls.
#[derive(Clone, Debug, PartialEq, Eq)]
pub struct Connection {
    pub provider: ConnectionProvider,
    pub created_at: u64,
    pub status: ConnectionStatus,
}

/// The sensitive token material backing a connection. Must never appear in
/// a scrubbed payload.
#[derive(Clone, Debug, PartialEq, Eq)]
pub struct Credential {
    pub access_token: String,
    pub access_token_expiry: Option<u64>,
    pub refresh_token: Option<String>,
}

impl Credential {
    /// The credential a successful finalize (or refresh) establishes: the
    /// token material of the result, ready to be stored by the caller.
    pub fn from_token_material(
        access_token: &String,
        access_token_expiry: Option<u64>,
        refresh_token: &Option<String>,
    ) -> (r: Credential)
        ensures
            r.access_token == access_token,
            r.access_token_expiry == access_token_expiry,
            r.refresh_token == refresh_token,
    {
        let refresh = match refresh_token {
            Some(t) => Some(t.clone()),
            None => None,
        };
        Credential {
            access_token: access_token.clone(),
            access_token_expiry,
            refresh_token: refresh,
        }
    }
}

/// A transport-level failure surfaced by the request executor: the HTTP
/// status where one was received, and a description.
#[derive(Clone, Debug, PartialEq, Eq)]
pub struct TransportError {
    pub status: Option<u16>,
    pub message: String,
}

/// The closed set of failures a provider operation can return.
#[derive(Clone, Debug, PartialEq, Eq)]
pub enum ProviderError {
    /// The network exchange itself failed.
    TransportError(TransportError),
    /// The vendor answered, but the payload misses a required field.
    InvalidResponseError(String),
    /// The operation is semantically invalid for this vendor; carries a
    /// human-readable reason.
    ActionNotSupportedError(String),
    /// Scrubbing was attempted on a JSON value that is not an object.
    MalformedPayloadError(String),
}

/// The outcome of a successful authorization-code exchange. `raw_json` is
/// the full vendor payload, still unscrubbed: the caller must scrub it
/// before storing or logging it.
pub struct FinalizeResult {
    pub redirect_uri: String,
    pub code: String,
    pub access_token: String,
    pub access_token_expiry: Option<u64>,
    pub refresh_token: Option<String>,
    pub raw_json: Json,
}

/// The outcome of a successful token renewal; as `FinalizeResult`, minus
/// the original authorization code.
pub struct RefreshResult {
    pub access_token: String,
    pub access_token_expiry: Option<u64>,
    pub refresh_token: Option<String>,
    pub raw_json: Json,
}

/// A token-exchange request, ready for the transport layer to send: a
/// `POST` of `body` as JSON to `endpoint`, with the given `Accept`,
/// `Content-Type` and, where present, `Authorization: Basic` headers.
pub struct TokenRequest {
    pub provider: ConnectionProvider,
    pub endpoint: String,
    pub accept: String,
    pub content_type: String,
    /// The value of the `Authorization` header, where the vendor wants
    /// HTTP Basic authentication on the exchange.
    pub authorization: Option<String>,
    pub body: Json,
}

/// The body of an authorization-code exchange: a JSON object carrying the
/// grant type, the code, and the redirect URI used to obtain it.
pub open spec fn finalize_body_shape(body: Json, code: Seq<char>, redirect_uri: Seq<char>) -> bool {
    &&& body matches Json::Obj(entries)
    &&& entries@.len() == 3
    &&& entries@[0].0@ == "grant_type"@
    &&& entries@[0].1 matches Json::Str(g) && g@ == "authorization_code"@
    &&& entries@[1].0@ == "code"@
    &&& entries@[1].1 matches Json::Str(c) && c@ == code
    &&& entries@[2].0@ == "redirect_uri"@
    &&& entries@[2].1 matches Json::Str(u) && u@ == redirect_uri
}

/// The key under which a vendor response carries its token.
pub open spec fn access_token_key() -> Seq<char> {
    "access_token"@
}

/// The access token a vendor response carries: `Some(t)` when the response
/// is a JSON object whose `access_token` field is the string `t`, `None`
/// otherwise (absent field, non-string field, or non-object response).
pub open spec fn response_token(raw: Json) -> Option<Seq<char>> {
    if raw matches Json::Obj(entries) && obj_has_key(entries@, access_token_key())
        && obj_lookup(entries@, access_token_key()) is Str {
        Some(obj_lookup(raw->Obj_0@, access_token_key())->Str_0@)
    } else {
        None
    }
}

/// The shared contract of one vendor adapter. Each adapter fixes, through
/// the `*_ens` spec functions, exactly what its operations return; the
/// clauses written on the methods below bind every adapter alike:
/// `finalize_response` accepts a payload only if it carries an
/// `access_token` string and echoes code and redirect URI unchanged,
/// `refresh` fails with `ActionNotSupportedError` for a vendor that
/// declares no refresh support, and `scrubbed_raw_json` succeeds exactly
/// on objects and never leaves an `access_token` key behind.
pub trait Provider: Sized {
    /// Which vendor this adapter serves.
    spec fn spec_id(&self) -> ConnectionProvider;

    /// Whether this vendor's tokens can be refreshed at all.
    spec fn refresh_supported(&self) -> bool;

    /// The adapter's exact contract for `finalize_response`.
    spec fn finalize_ens(
        &self,
        code: Seq<char>,
        redirect_uri: Seq<char>,
        raw_json: Json,
        r: Result<FinalizeResult, ProviderError>,
    ) -> bool;

    /// The adapter's exact contract for `refresh`.
    spec fn refresh_ens(&self, r: Result<RefreshResult, ProviderError>) -> bool;

    /// The adapter's exact contract for `scrubbed_raw_json`.
    spec fn scrub_ens(&self, raw_json: Json, r: Result<Json, ProviderError>) -> bool;

    fn id(&self) -> (r: ConnectionProvider)
        ensures
            r == self.spec_id(),
    ;

    /// Turn the vendor's token-exchange payload into a `FinalizeResult`.
    /// The network exchange itself is the caller's step; this operation is
    /// the decision that follows it.
    fn finalize_response(
        &self,
        connection: &Connection,
        related_credentials: Option<Credential>,
        code: &str,
        redirect_uri: &str,
        raw_json: Json,
    ) -> (r: Result<FinalizeResult, ProviderError>)
        ensures
            self.finalize_ens(code@, redirect_uri@, raw_json, r),
            (r matches Ok(f) ==> {
                &&& response_token(raw_json) matches Some(t) && f.access_token@ == t
                &&& f.code@ == code@
                &&& f.redirect_uri@ == redirect_uri@
                &&& f.raw_json == raw_json
            }),
            response_token(raw_json) is None ==> r is Err,
    ;

    /// Renew the connection's token, or fail with
    /// `ActionNotSupportedError` where this vendor has no refresh concept.
    fn refresh(
        &self,
        connection: &Connection,
        related_credentials: Option<Credential>,
    ) -> (r: Result<RefreshResult, ProviderError>)
        ensures
            self.refresh_ens(r),
            !self.refresh_supported() ==> (r matches Err(e)
                && e is ActionNotSupportedError),
    ;

    /// A copy of the payload with every secret field removed. Fails
    /// exactly when the payload is not a JSON object.
    fn scrubbed_raw_json(&self, raw_json: Json) -> (r: Result<Json, ProviderError>)
        ensures
            self.scrub_ens(raw_json, r),
            r is Ok <==> raw_json is Obj,
            (r matches Ok(s) ==> s is Obj && !obj_has_key(
                s->Obj_0@,
                access_token_key(),
            )),
            (r matches Err(e) ==> e is MalformedPayloadError),
    ;
}

} // verus!
