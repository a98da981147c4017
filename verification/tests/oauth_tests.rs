use fcm::json::JsonValue;
use fcm::oauth::{
    FcmOauthError, OauthClientImpl, TokenCache, TokenDecision, access_token_value, get_project_id,
};

fn key_json(project_id: &str) -> JsonValue {
    JsonValue::Obj(vec![
        (
            "project_id".to_string(),
            JsonValue::Str(project_id.to_string()),
        ),
        (
            "client_email".to_string(),
            JsonValue::Str("svc@example.test".to_string()),
        ),
    ])
}

#[test]
fn project_id_is_read_from_the_key() {
    assert_eq!(get_project_id(&key_json("p-1")).unwrap(), "p-1");
}

#[test]
fn missing_or_non_string_project_id_is_refused() {
    let no_id = JsonValue::Obj(vec![(
        "client_email".to_string(),
        JsonValue::Str("svc@example.test".to_string()),
    )]);
    assert!(matches!(
        get_project_id(&no_id),
        Err(FcmOauthError::ProjectIdIsMissing)
    ));

    let numeric_id = JsonValue::Obj(vec![(
        "project_id".to_string(),
        JsonValue::Num("7".to_string()),
    )]);
    assert!(matches!(
        get_project_id(&numeric_id),
        Err(FcmOauthError::ProjectIdIsMissing)
    ));
}

#[test]
fn oauth_client_keeps_project_id_and_path() {
    let client = OauthClientImpl::new(&key_json("p-2"), "key.json".to_string()).unwrap();
    assert_eq!(client.get_project_id(), "p-2");
    assert_eq!(client.service_account_key_path, "key.json");
}

#[test]
fn access_token_value_takes_the_second_field() {
    assert_eq!(
        access_token_value("Bearer abc.def").as_deref(),
        Some("abc.def")
    );
    assert_eq!(access_token_value("Bearer  abc").as_deref(), Some(""));
    assert_eq!(access_token_value("tokenonly"), None);
    assert_eq!(access_token_value("Bearer "), Some("".to_string()));
}

#[test]
fn cold_cache_starts_one_exchange_and_then_all_callers_share_the_token() {
    let mut cache = TokenCache::new();
    let now: i64 = 1_000_000;

    let mut exchanges = 0;
    for _ in 0..8 {
        match cache.decide(now) {
            TokenDecision::UseCached(_) => {}
            TokenDecision::StartExchange => {
                // All callers that found the cache cold coalesce onto a
                // single exchange; its result is stored once.
                if exchanges == 0 {
                    exchanges += 1;
                    cache.store("tok-1".to_string(), now + 3600);
                } else {
                    panic!("a second exchange was started against a warm cache");
                }
            }
        }
    }
    assert_eq!(exchanges, 1);

    for _ in 0..8 {
        match cache.decide(now + 10) {
            TokenDecision::UseCached(bearer) => assert_eq!(bearer, "tok-1"),
            TokenDecision::StartExchange => panic!("valid cached token was not reused"),
        }
    }
}

#[test]
fn expired_or_nearly_expired_token_forces_a_new_exchange() {
    let mut cache = TokenCache::new();
    let now: i64 = 50_000;
    cache.store("tok".to_string(), now + 3600);

    // Still comfortably valid.
    assert!(matches!(
        cache.decide(now),
        TokenDecision::UseCached(_)
    ));
    // Within the sixty-second safety margin of the expiry.
    assert!(matches!(
        cache.decide(now + 3600 - 60),
        TokenDecision::StartExchange
    ));
    // Past the expiry.
    assert!(matches!(
        cache.decide(now + 4000),
        TokenDecision::StartExchange
    ));
}
