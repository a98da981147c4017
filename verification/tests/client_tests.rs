use fcm::client::{FcmClientBuilder, FcmClientError, message_send_url, response_from_parts};
use fcm::json::JsonValue;
use fcm::oauth::{OauthTokenError, YupOauth2Error};

#[test]
fn send_url_interpolates_the_project_id() {
    assert_eq!(
        message_send_url("my-project"),
        "https://fcm.googleapis.com/v1/projects/my-project/messages:send"
    );
}

#[test]
fn builder_records_every_option() {
    let builder = FcmClientBuilder::new()
        .service_account_key_json_path("key.json".to_string())
        .token_cache_json_path("cache.json".to_string())
        .fcm_request_timeout(20_000)
        .dry_run(true);
    assert_eq!(
        builder.service_account_key_json_path.as_deref(),
        Some("key.json")
    );
    assert_eq!(builder.token_cache_json_path.as_deref(), Some("cache.json"));
    assert_eq!(builder.fcm_request_timeout, Some(20_000));
    assert_eq!(builder.dry_run, Some(true));
    assert_eq!(builder.service_account_key_json_string, None);

    let builder = FcmClientBuilder::new().service_account_key_json_string("{}".to_string());
    assert_eq!(
        builder.service_account_key_json_string.as_deref(),
        Some("{}")
    );
    assert_eq!(builder.service_account_key_json_path, None);
}

#[test]
fn malformed_retry_after_header_fails_the_call() {
    let r = response_from_parts(503, JsonValue::Obj(vec![]), Some("tomorrow"));
    match r {
        Err(FcmClientError::RetryAfterHttpHeaderInvalid { error, value }) => {
            assert_eq!(value, "tomorrow");
            assert!(!error.is_empty());
        }
        _ => panic!("a malformed Retry-After header must fail the call"),
    }
}

#[test]
fn access_token_missing_is_detected_through_the_client_error() {
    let e = FcmClientError::Oauth(YupOauth2Error::AccessTokenIsMissing);
    assert!(e.is_access_token_missing_even_if_server_requests_completed());

    let e = FcmClientError::Oauth(YupOauth2Error::Oauth(OauthTokenError::MissingAccessToken));
    assert!(e.is_access_token_missing_even_if_server_requests_completed());

    let e = FcmClientError::Oauth(YupOauth2Error::Oauth(OauthTokenError::AuthError(
        "invalid_grant".to_string(),
    )));
    assert!(e.is_access_token_missing_even_if_server_requests_completed());

    let e = FcmClientError::Oauth(YupOauth2Error::Oauth(OauthTokenError::Other(
        "io".to_string(),
    )));
    assert!(!e.is_access_token_missing_even_if_server_requests_completed());

    let e = FcmClientError::Reqwest("timeout".to_string());
    assert!(!e.is_access_token_missing_even_if_server_requests_completed());
}
