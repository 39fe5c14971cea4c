//! The Notion adapter: one concrete instance of the `Provider` contract.
//!
//! Notion exchanges an authorization code for an access token over HTTP
//! Basic authentication, its tokens never expire (so `refresh` always
//! fails), and its scrub list is the single `access_token` field.
use vstd::prelude::*;
use vstd::string::StringExecFns;
use vstd::utf8::encode_utf8;

use crate::json::{lemma_remove_key_idempotent, obj_get, obj_has_key, remove_key, remove_obj_key, Json};
use crate::provider::{
    access_token_key, finalize_body_shape, response_token, Connection, ConnectionProvider,
    Credential, FinalizeResult, Provider, ProviderError, RefreshResult, TokenRequest,
    TransportError,
};

verus! {

/// What base64's `STANDARD` engine returns for a byte sequence.
pub uninterp spec fn base64_of(bytes: Seq<u8>) -> Seq<char>;

/// Relies on base64's `Engine::encode` with the `STANDARD` engine: the
/// standard alphabet with padding, so the output is a function of the
/// input bytes alone and spans four characters for every three bytes
/// begun. Inputs long enough to overflow that length are excluded, since
/// `encode` panics on them.
#[verifier::external_body]
fn b64_encode(input: &Vec<u8>) -> (r: String)
    requires
        input@.len() < usize::MAX / 2,
    ensures
        r@ == base64_of(input@),
        r@.len() == 4 * ((input@.len() + 2) / 3),
{
    base64::Engine::encode(&base64::engine::general_purpose::STANDARD, input.as_slice())
}

/// The token endpoint of Notion's OAuth dialect.
pub open spec fn notion_token_endpoint() -> Seq<char> {
    "https://api.notion.com/v1/oauth/token"@
}

/// The bytes handed to base64 when building the HTTP Basic credential:
/// the UTF-8 of the client id, a colon, the UTF-8 of the client secret.
pub open spec fn basic_auth_input(id: Seq<char>, secret: Seq<char>) -> Seq<u8> {
    encode_utf8(id) + seq![58u8] + encode_utf8(secret)
}

/// The explanation `refresh` carries: Notion has no refresh concept.
pub open spec fn refresh_unsupported_reason() -> Seq<char> {
    "Notion access tokens do not expire"@
}

/// The message of the error `finalize_response` returns on a payload
/// without a usable `access_token`.
pub open spec fn missing_token_message() -> Seq<char> {
    "Missing `access_token` in response from Notion"@
}

/// The message of the error `scrubbed_raw_json` returns on a non-object.
pub open spec fn malformed_payload_message() -> Seq<char> {
    "Invalid raw_json, not an object"@
}

/// The Notion adapter. It holds the client id and secret registered with
/// the vendor, read once from configuration at startup and immutable for
/// the adapter's lifetime.
pub struct NotionConnectionProvider {
    pub client_id: String,
    pub client_secret: String,
}

impl NotionConnectionProvider {
    pub fn new(client_id: String, client_secret: String) -> (r: Self)
        ensures
            r.client_id == client_id,
            r.client_secret == client_secret,
    {
        NotionConnectionProvider { client_id, client_secret }
    }

    /// The HTTP Basic credential: base64 of `<id>:<secret>`.
    fn basic_auth(&self) -> (r: String)
        requires
            basic_auth_input(self.client_id@, self.client_secret@).len() < usize::MAX / 2,
        ensures
            r@ == base64_of(basic_auth_input(self.client_id@, self.client_secret@)),
    {
        let id_bytes: &[u8] = self.client_id.as_str().as_bytes();
        let secret_bytes: &[u8] = self.client_secret.as_str().as_bytes();
        let mut buf: Vec<u8> = Vec::new();
        let mut i: usize = 0;
        while i < id_bytes.len()
            invariant
                i <= id_bytes@.len(),
                buf@ == id_bytes@.take(i as int),
            decreases id_bytes@.len() - i,
        {
            buf.push(id_bytes[i]);
            i += 1;
            proof {
                assert(buf@ =~= id_bytes@.take(i as int));
            }
        }
        buf.push(58);
        let mut j: usize = 0;
        while j < secret_bytes.len()
            invariant
                j <= secret_bytes@.len(),
                buf@ == id_bytes@ + seq![58u8] + secret_bytes@.take(j as int),
            decreases secret_bytes@.len() - j,
        {
            buf.push(secret_bytes[j]);
            j += 1;
            proof {
                assert(buf@ =~= id_bytes@ + seq![58u8] + secret_bytes@.take(j as int));
            }
        }
        proof {
            assert(buf@ =~= basic_auth_input(self.client_id@, self.client_secret@));
        }
        b64_encode(&buf)
    }

    /// The one network exchange `finalize` performs, as a value: a `POST`
    /// of the authorization-code grant to Notion's token endpoint, with
    /// the HTTP Basic credential attached. The transport layer sends it;
    /// `finalize_response` takes over on what comes back.
    pub fn finalize_request(&self, code: &str, redirect_uri: &str) -> (r: TokenRequest)
        requires
            basic_auth_input(self.client_id@, self.client_secret@).len() < usize::MAX / 2,
        ensures
            r.provider == ConnectionProvider::Notion,
            r.endpoint@ == notion_token_endpoint(),
            r.accept@ == "application/json"@,
            r.content_type@ == "application/json"@,
            (r.authorization matches Some(a) && a@ == "Basic "@ + base64_of(
                basic_auth_input(self.client_id@, self.client_secret@),
            )),
            finalize_body_shape(r.body, code@, redirect_uri@),
    {
        let mut entries: Vec<(String, Json)> = Vec::new();
        entries.push(
            (String::from_str("grant_type"), Json::Str(String::from_str("authorization_code"))),
        );
        entries.push((String::from_str("code"), Json::Str(String::from_str(code))));
        entries.push((String::from_str("redirect_uri"), Json::Str(String::from_str(redirect_uri))));
        let authorization = String::from_str("Basic ").concat(self.basic_auth().as_str());
        TokenRequest {
            provider: ConnectionProvider::Notion,
            endpoint: String::from_str("https://api.notion.com/v1/oauth/token"),
            accept: String::from_str("application/json"),
            content_type: String::from_str("application/json"),
            authorization: Some(authorization),
            body: Json::Obj(entries),
        }
    }

    /// Map a transport failure into the provider error taxonomy.
    pub fn handle_provider_request_error(&self, error: TransportError) -> (r: ProviderError)
        ensures
            r == ProviderError::TransportError(error),
    {
        ProviderError::TransportError(error)
    }
}

/// Scrubbing is idempotent. Where one `scrubbed_raw_json` call turned
/// `raw` into `once` and a second call turned `once` into `twice`, the
/// second call changed nothing, and the scrubbed payload carries no
/// `access_token` key.
pub proof fn lemma_scrubbed_raw_json_idempotent(
    p: NotionConnectionProvider,
    raw: Json,
    once: Json,
    twice: Json,
)
    requires
        p.scrub_ens(raw, Ok(once)),
        p.scrub_ens(once, Ok(twice)),
    ensures
        once is Obj && twice is Obj && twice->Obj_0@ == once->Obj_0@,
        !obj_has_key(once->Obj_0@, access_token_key()),
{
    lemma_remove_key_idempotent(raw->Obj_0@, access_token_key());
}

impl Provider for NotionConnectionProvider {
    open spec fn spec_id(&self) -> ConnectionProvider {
        ConnectionProvider::Notion
    }

    open spec fn refresh_supported(&self) -> bool {
        false
    }

    open spec fn finalize_ens(
        &self,
        code: Seq<char>,
        redirect_uri: Seq<char>,
        raw_json: Json,
        r: Result<FinalizeResult, ProviderError>,
    ) -> bool {
        match response_token(raw_json) {
            Some(t) => {
                &&& r matches Ok(f)
                &&& f.access_token@ == t
                &&& f.code@ == code
                &&& f.redirect_uri@ == redirect_uri
                &&& f.access_token_expiry is None
                &&& f.refresh_token is None
                &&& f.raw_json == raw_json
            },
            None => {
                &&& r matches Err(e)
                &&& e matches ProviderError::InvalidResponseError(m)
                &&& m@ == missing_token_message()
            },
        }
    }

    open spec fn refresh_ens(&self, r: Result<RefreshResult, ProviderError>) -> bool {
        &&& r matches Err(e)
        &&& e matches ProviderError::ActionNotSupportedError(m)
        &&& m@ == refresh_unsupported_reason()
    }

    open spec fn scrub_ens(&self, raw_json: Json, r: Result<Json, ProviderError>) -> bool {
        match raw_json {
            Json::Obj(entries) => {
                &&& r matches Ok(s)
                &&& s matches Json::Obj(kept)
                &&& kept@ == remove_key(entries@, access_token_key())
            },
            _ => {
                &&& r matches Err(e)
                &&& e matches ProviderError::MalformedPayloadError(m)
                &&& m@ == malformed_payload_message()
            },
        }
    }

    fn id(&self) -> (r: ConnectionProvider) {
        ConnectionProvider::Notion
    }

    fn finalize_response(
        &self,
        connection: &Connection,
        related_credentials: Option<Credential>,
        code: &str,
        redirect_uri: &str,
        raw_json: Json,
    ) -> (r: Result<FinalizeResult, ProviderError>) {
        let entries = match &raw_json {
            Json::Obj(entries) => entries,
            _ => {
                return Err(
                    ProviderError::InvalidResponseError(
                        String::from_str("Missing `access_token` in response from Notion"),
                    ),
                );
            },
        };
        let key = String::from_str("access_token");
        let access_token = match obj_get(entries, &key) {
            Some(value) => match value {
                Json::Str(token) => token.clone(),
                _ => {
                    return Err(
                        ProviderError::InvalidResponseError(
                            String::from_str("Missing `access_token` in response from Notion"),
                        ),
                    );
                },
            },
            None => {
                return Err(
                    ProviderError::InvalidResponseError(
                        String::from_str("Missing `access_token` in response from Notion"),
                    ),
                );
            },
        };
        Ok(
            FinalizeResult {
                redirect_uri: String::from_str(redirect_uri),
                code: String::from_str(code),
                access_token,
                access_token_expiry: None,
                refresh_token: None,
                raw_json,
            },
        )
    }

    fn refresh(
        &self,
        connection: &Connection,
        related_credentials: Option<Credential>,
    ) -> (r: Result<RefreshResult, ProviderError>) {
        Err(
            ProviderError::ActionNotSupportedError(
                String::from_str("Notion access tokens do not expire"),
            ),
        )
    }

    fn scrubbed_raw_json(&self, raw_json: Json) -> (r: Result<Json, ProviderError>) {
        match raw_json {
            Json::Obj(entries) => {
                let key = String::from_str("access_token");
                let ghost before = entries@;
                let kept = remove_obj_key(entries, &key);
                proof {
                    lemma_remove_key_idempotent(before, key@);
                }
                Ok(Json::Obj(kept))
            },
            _ => Err(
                ProviderError::MalformedPayloadError(
                    String::from_str("Invalid raw_json, not an object"),
                ),
            ),
        }
    }
}

} // verus!
