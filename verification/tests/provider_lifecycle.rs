use oauth_providers::Connection;
use oauth_providers::ConnectionProvider;
use oauth_providers::ConnectionStatus;
use oauth_providers::Credential;
use oauth_providers::Json;
use oauth_providers::NotionConnectionProvider;
use oauth_providers::Provider;
use oauth_providers::ProviderError;
use oauth_providers::ProviderRegistry;
use oauth_providers::TransportError;

fn s(x: &str) -> String {
    x.to_string()
}

fn jstr(x: &str) -> Json {
    Json::Str(x.to_string())
}

fn provider() -> NotionConnectionProvider {
    NotionConnectionProvider::new(s("id"), s("secret"))
}

fn connection() -> Connection {
    Connection { provider: ConnectionProvider::Notion, created_at: 0, status: ConnectionStatus::Pending }
}

fn json_eq(a: &Json, b: &Json) -> bool {
    match (a, b) {
        (Json::Null, Json::Null) => true,
        (Json::Bool(x), Json::Bool(y)) => x == y,
        (Json::Int(x), Json::Int(y)) => x == y,
        (Json::Str(x), Json::Str(y)) => x == y,
        (Json::Arr(x), Json::Arr(y)) => {
            x.len() == y.len() && x.iter().zip(y.iter()).all(|(p, q)| json_eq(p, q))
        }
        (Json::Obj(x), Json::Obj(y)) => {
            x.len() == y.len()
                && x.iter().zip(y.iter()).all(|(p, q)| p.0 == q.0 && json_eq(&p.1, &q.1))
        }
        _ => false,
    }
}

#[test]
fn finalize_returns_token_and_echoes_inputs() {
    let raw = Json::Obj(vec![(s("access_token"), jstr("T"))]);
    let r = provider().finalize_response(&connection(), None, "code1", "https://r", raw);
    let f = r.unwrap_or_else(|_| panic!("finalize failed"));
    assert_eq!(f.access_token, "T");
    assert_eq!(f.code, "code1");
    assert_eq!(f.redirect_uri, "https://r");
    assert_eq!(f.access_token_expiry, None);
    assert_eq!(f.refresh_token, None);
    let expected_raw = Json::Obj(vec![(s("access_token"), jstr("T"))]);
    assert!(json_eq(&f.raw_json, &expected_raw));
}

#[test]
fn finalize_missing_access_token_fails() {
    let raw = Json::Obj(vec![(s("workspace_id"), jstr("w1"))]);
    let r = provider().finalize_response(&connection(), None, "c", "https://r", raw);
    match r {
        Err(ProviderError::InvalidResponseError(m)) => {
            assert_eq!(m, "Missing `access_token` in response from Notion");
        }
        _ => panic!("expected InvalidResponseError"),
    }
}

#[test]
fn finalize_non_string_access_token_fails() {
    let raw = Json::Obj(vec![(s("access_token"), Json::Int(5))]);
    let r = provider().finalize_response(&connection(), None, "c", "https://r", raw);
    assert!(matches!(r, Err(ProviderError::InvalidResponseError(_))));
}

#[test]
fn finalize_non_object_fails() {
    let raw = Json::Arr(vec![jstr("access_token")]);
    let r = provider().finalize_response(&connection(), None, "c", "https://r", raw);
    assert!(matches!(r, Err(ProviderError::InvalidResponseError(_))));
}

#[test]
fn refresh_always_unsupported() {
    let r = provider().refresh(&connection(), None);
    match r {
        Err(ProviderError::ActionNotSupportedError(m)) => {
            assert_eq!(m, "Notion access tokens do not expire");
        }
        _ => panic!("expected ActionNotSupportedError"),
    }
}

#[test]
fn refresh_unsupported_with_related_credentials() {
    let related = Credential {
        access_token: s("old"),
        access_token_expiry: Some(12345),
        refresh_token: Some(s("rt")),
    };
    let r = provider().refresh(&connection(), Some(related));
    assert!(matches!(r, Err(ProviderError::ActionNotSupportedError(_))));
}

#[test]
fn scrub_removes_access_token() {
    let raw = Json::Obj(vec![(s("access_token"), jstr("t")), (s("workspace_id"), jstr("w1"))]);
    let scrubbed = provider().scrubbed_raw_json(raw).unwrap_or_else(|_| panic!("scrub failed"));
    let expected = Json::Obj(vec![(s("workspace_id"), jstr("w1"))]);
    assert!(json_eq(&scrubbed, &expected));
}

#[test]
fn scrub_is_idempotent() {
    let p = provider();
    let raw = Json::Obj(vec![
        (s("access_token"), jstr("t")),
        (s("bot_id"), jstr("b")),
        (s("workspace_id"), jstr("w1")),
    ]);
    let once = p.scrubbed_raw_json(raw).unwrap_or_else(|_| panic!("scrub failed"));
    let once_copy = Json::Obj(vec![(s("bot_id"), jstr("b")), (s("workspace_id"), jstr("w1"))]);
    assert!(json_eq(&once, &once_copy));
    let twice = p.scrubbed_raw_json(once).unwrap_or_else(|_| panic!("second scrub failed"));
    assert!(json_eq(&twice, &once_copy));
    if let Json::Obj(entries) = &twice {
        assert!(entries.iter().all(|e| e.0 != "access_token"));
    } else {
        panic!("scrub did not return an object");
    }
}

#[test]
fn scrub_removes_every_access_token_entry() {
    let raw = Json::Obj(vec![
        (s("access_token"), jstr("t1")),
        (s("workspace_id"), jstr("w1")),
        (s("access_token"), jstr("t2")),
    ]);
    let scrubbed = provider().scrubbed_raw_json(raw).unwrap_or_else(|_| panic!("scrub failed"));
    let expected = Json::Obj(vec![(s("workspace_id"), jstr("w1"))]);
    assert!(json_eq(&scrubbed, &expected));
}

#[test]
fn scrub_empty_object_is_empty() {
    let scrubbed = provider()
        .scrubbed_raw_json(Json::Obj(vec![]))
        .unwrap_or_else(|_| panic!("scrub failed"));
    assert!(json_eq(&scrubbed, &Json::Obj(vec![])));
}

#[test]
fn scrub_object_of_only_secrets_is_empty() {
    let raw = Json::Obj(vec![(s("access_token"), jstr("t"))]);
    let scrubbed = provider().scrubbed_raw_json(raw).unwrap_or_else(|_| panic!("scrub failed"));
    assert!(json_eq(&scrubbed, &Json::Obj(vec![])));
}

#[test]
fn scrub_array_fails() {
    let r = provider().scrubbed_raw_json(Json::Arr(vec![jstr("x")]));
    match r {
        Err(ProviderError::MalformedPayloadError(m)) => {
            assert_eq!(m, "Invalid raw_json, not an object");
        }
        _ => panic!("expected MalformedPayloadError"),
    }
}

#[test]
fn scrub_scalar_fails() {
    let r = provider().scrubbed_raw_json(Json::Int(7));
    assert!(matches!(r, Err(ProviderError::MalformedPayloadError(_))));
    let r = provider().scrubbed_raw_json(Json::Null);
    assert!(matches!(r, Err(ProviderError::MalformedPayloadError(_))));
}

#[test]
fn end_to_end_finalize_then_scrub() {
    let p = provider();
    let raw = Json::Obj(vec![(s("access_token"), jstr("tok_x")), (s("workspace_id"), jstr("w1"))]);
    let f = p
        .finalize_response(&connection(), None, "abc123", "https://app/cb", raw)
        .unwrap_or_else(|_| panic!("finalize failed"));
    assert_eq!(f.access_token, "tok_x");
    assert_eq!(f.redirect_uri, "https://app/cb");
    assert_eq!(f.code, "abc123");
    assert_eq!(f.access_token_expiry, None);
    assert_eq!(f.refresh_token, None);
    let scrubbed = p.scrubbed_raw_json(f.raw_json).unwrap_or_else(|_| panic!("scrub failed"));
    let expected = Json::Obj(vec![(s("workspace_id"), jstr("w1"))]);
    assert!(json_eq(&scrubbed, &expected));
}

#[test]
fn registry_routes_by_id() {
    let registry = ProviderRegistry::new(provider());
    let p = registry.provider_for(ConnectionProvider::Notion);
    assert_eq!(p.id(), ConnectionProvider::Notion);
}

#[test]
fn transport_error_is_mapped_into_the_taxonomy() {
    let e = TransportError { status: Some(500), message: s("upstream timed out") };
    let mapped = provider().handle_provider_request_error(e);
    match mapped {
        ProviderError::TransportError(t) => {
            assert_eq!(t.status, Some(500));
            assert_eq!(t.message, "upstream timed out");
        }
        _ => panic!("expected TransportError"),
    }
}

#[test]
fn credential_from_token_material_copies_fields() {
    let c = Credential::from_token_material(&s("tok"), Some(99), &Some(s("rt")));
    assert_eq!(c.access_token, "tok");
    assert_eq!(c.access_token_expiry, Some(99));
    assert_eq!(c.refresh_token, Some(s("rt")));
    let c = Credential::from_token_material(&s("tok2"), None, &None);
    assert_eq!(c.access_token, "tok2");
    assert_eq!(c.access_token_expiry, None);
    assert_eq!(c.refresh_token, None);
}
