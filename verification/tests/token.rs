use lm04_stats::json::Json;
use lm04_stats::models::spotify_token::{SpotifyToken, SpotifyTokenError, TokenAction};

fn credential(expires_at: Option<i64>) -> SpotifyToken {
    SpotifyToken {
        id: 1,
        access_token: "old-access".to_string(),
        refresh_token: "old-refresh".to_string(),
        scope: Some("user-read-currently-playing".to_string()),
        expires_at,
        updated_at: Some(1_700_000_000),
    }
}

fn obj(fields: Vec<(&str, Json)>) -> Json {
    Json::Obj(fields.into_iter().map(|(k, v)| (k.to_string(), v)).collect())
}

#[test]
fn needs_refresh_when_expiry_absent() {
    assert!(credential(None).needs_refresh(0));
    assert!(credential(None).needs_refresh(i64::MAX));
}

#[test]
fn needs_refresh_when_expiry_reached_or_past() {
    let t = credential(Some(1_700_000_100));
    assert!(t.needs_refresh(1_700_000_100));
    assert!(t.needs_refresh(1_700_000_101));
    assert!(!t.needs_refresh(1_700_000_099));
}

#[test]
fn decide_without_credential_rejects() {
    let action = SpotifyToken::decide_token_action(None, 1_700_000_000);
    assert_eq!(action, TokenAction::NoCredential);
}

#[test]
fn decide_refreshes_expired_and_keeps_valid() {
    let expired = credential(Some(100));
    match SpotifyToken::decide_token_action(Some(expired), 200) {
        TokenAction::Refresh(t) => assert_eq!(t.access_token, "old-access"),
        other => panic!("expected a refresh, got {:?}", other),
    }
    let valid = credential(Some(300));
    match SpotifyToken::decide_token_action(Some(valid), 200) {
        TokenAction::UseAsIs(t) => assert_eq!(t.access_token, "old-access"),
        other => panic!("expected use-as-is, got {:?}", other),
    }
}

#[test]
fn decide_now_refreshes_a_credential_without_expiry() {
    // Whatever the clock says, an absent expiry forces a refresh.
    let (action, _now) = SpotifyToken::decide_token_action_now(Some(credential(None)));
    assert!(matches!(action, TokenAction::Refresh(_)));
}

#[test]
fn decide_now_keeps_a_far_future_credential() {
    let (action, now) = SpotifyToken::decide_token_action_now(Some(credential(Some(i64::MAX))));
    assert!(now < i64::MAX);
    assert!(matches!(action, TokenAction::UseAsIs(_)));
}

#[test]
fn refresh_response_parses_all_fields() {
    let resp = SpotifyToken::parse_refresh_response(&obj(vec![
        ("access_token", Json::Str("new-access".to_string())),
        ("refresh_token", Json::Str("new-refresh".to_string())),
        ("expires_in", Json::Int(3600)),
        ("scope", Json::Str("ignored".to_string())),
    ]))
    .expect("a decoded reply");
    assert_eq!(resp.access_token, "new-access");
    assert_eq!(resp.refresh_token.as_deref(), Some("new-refresh"));
    assert_eq!(resp.expires_in, Some(3600));
}

#[test]
fn refresh_response_optional_fields_may_be_absent_or_null() {
    let resp = SpotifyToken::parse_refresh_response(&obj(vec![(
        "access_token",
        Json::Str("new-access".to_string()),
    )]))
    .expect("a decoded reply");
    assert_eq!(resp.refresh_token, None);
    assert_eq!(resp.expires_in, None);

    let resp = SpotifyToken::parse_refresh_response(&obj(vec![
        ("access_token", Json::Str("new-access".to_string())),
        ("refresh_token", Json::Null),
        ("expires_in", Json::Null),
    ]))
    .expect("a decoded reply");
    assert_eq!(resp.refresh_token, None);
    assert_eq!(resp.expires_in, None);
}

#[test]
fn refresh_response_rejects_bad_shapes() {
    // No access token.
    assert!(SpotifyToken::parse_refresh_response(&obj(vec![])).is_none());
    // Access token of the wrong type.
    assert!(SpotifyToken::parse_refresh_response(&obj(vec![(
        "access_token",
        Json::Int(5)
    )]))
    .is_none());
    // Refresh token of the wrong type.
    assert!(SpotifyToken::parse_refresh_response(&obj(vec![
        ("access_token", Json::Str("a".to_string())),
        ("refresh_token", Json::Bool(true)),
    ]))
    .is_none());
    // Expiry that is not an integer.
    assert!(SpotifyToken::parse_refresh_response(&obj(vec![
        ("access_token", Json::Str("a".to_string())),
        ("expires_in", Json::Inexact),
    ]))
    .is_none());
    // Not an object at all.
    assert!(SpotifyToken::parse_refresh_response(&Json::Arr(vec![])).is_none());
}

#[test]
fn apply_refresh_replaces_or_retains_the_refresh_token() {
    let stored = credential(Some(100));
    let with_rotation = SpotifyToken::parse_refresh_response(&obj(vec![
        ("access_token", Json::Str("new-access".to_string())),
        ("refresh_token", Json::Str("new-refresh".to_string())),
    ]))
    .unwrap();
    let updated = SpotifyToken::apply_refresh_response(&stored, with_rotation, 1_700_000_500);
    assert_eq!(updated.refresh_token, "new-refresh");

    let without_rotation = SpotifyToken::parse_refresh_response(&obj(vec![(
        "access_token",
        Json::Str("new-access".to_string()),
    )]))
    .unwrap();
    let updated = SpotifyToken::apply_refresh_response(&stored, without_rotation, 1_700_000_500);
    assert_eq!(updated.refresh_token, "old-refresh");
}

#[test]
fn apply_refresh_sets_expiry_and_bookkeeping() {
    let stored = credential(Some(100));
    let resp = SpotifyToken::parse_refresh_response(&obj(vec![
        ("access_token", Json::Str("new-access".to_string())),
        ("expires_in", Json::Int(3600)),
    ]))
    .unwrap();
    let updated = SpotifyToken::apply_refresh_response(&stored, resp, 1_700_000_500);
    assert_eq!(updated.id, 1);
    assert_eq!(updated.access_token, "new-access");
    assert_eq!(updated.expires_at, Some(1_700_004_100));
    assert_eq!(updated.updated_at, Some(1_700_000_500));
    assert_eq!(updated.scope.as_deref(), Some("user-read-currently-playing"));
}

#[test]
fn apply_refresh_without_lifetime_leaves_expiry_absent() {
    let stored = credential(Some(100));
    let resp = SpotifyToken::parse_refresh_response(&obj(vec![(
        "access_token",
        Json::Str("new-access".to_string()),
    )]))
    .unwrap();
    let updated = SpotifyToken::apply_refresh_response(&stored, resp, 1_700_000_500);
    assert_eq!(updated.expires_at, None);
}

#[test]
fn interpret_rejected_exchange_keeps_the_body_text() {
    let stored = credential(None);
    let r = SpotifyToken::interpret_refresh_reply(
        &stored,
        false,
        "invalid_grant".to_string(),
        None,
        1_700_000_500,
    );
    assert_eq!(r, Err(SpotifyTokenError::RefreshFailed("invalid_grant".to_string())));
}

#[test]
fn interpret_unreadable_or_undecodable_body_is_a_transport_failure() {
    let stored = credential(None);
    let not_json = SpotifyToken::interpret_refresh_reply(
        &stored,
        true,
        "<html>".to_string(),
        None,
        1_700_000_500,
    );
    assert_eq!(not_json, Err(SpotifyTokenError::HttpError("<html>".to_string())));

    let bad_shape = SpotifyToken::interpret_refresh_reply(
        &stored,
        true,
        "{}".to_string(),
        Some(obj(vec![])),
        1_700_000_500,
    );
    assert_eq!(bad_shape, Err(SpotifyTokenError::HttpError("{}".to_string())));
}

#[test]
fn interpret_decoded_reply_updates_the_credential() {
    let stored = credential(Some(100));
    let body = obj(vec![
        ("access_token", Json::Str("new-access".to_string())),
        ("expires_in", Json::Int(60)),
    ]);
    let r = SpotifyToken::interpret_refresh_reply(
        &stored,
        true,
        "unused".to_string(),
        Some(body),
        1_700_000_500,
    )
    .expect("an updated credential");
    assert_eq!(r.access_token, "new-access");
    assert_eq!(r.refresh_token, "old-refresh");
    assert_eq!(r.expires_at, Some(1_700_000_560));
}

#[test]
fn refresh_request_params_are_exactly_four() {
    let stored = credential(None);
    let config = lm04_stats::EnvConfig {
        database_url: "sqlite://stats.db".to_string(),
        spotify_client_id: "client-id".to_string(),
        spotify_client_secret: "client-secret".to_string(),
        api_access_key: "widget-key".to_string(),
    };
    let params = stored.refresh_request_params(&config);
    assert_eq!(params.len(), 4);
    assert_eq!(params[0], ("grant_type".to_string(), "refresh_token".to_string()));
    assert_eq!(params[1], ("refresh_token".to_string(), "old-refresh".to_string()));
    assert_eq!(params[2], ("client_id".to_string(), "client-id".to_string()));
    assert_eq!(params[3], ("client_secret".to_string(), "client-secret".to_string()));
}
