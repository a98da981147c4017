use fcm::client::response_from_parts;
use fcm::json::JsonValue;
use fcm::response::{
    FcmResponse, FcmResponseError, RecomendedAction, RecomendedWaitTime, RetryAfter,
};

fn body_with_name() -> JsonValue {
    JsonValue::Obj(vec![(
        "name".to_string(),
        JsonValue::Str("projects/p/messages/1".to_string()),
    )])
}

fn empty_body() -> JsonValue {
    JsonValue::Obj(vec![])
}

#[test]
fn scenario_success_with_resource_name() {
    let resp = response_from_parts(200, body_with_name(), None).unwrap();
    assert_eq!(resp.error(), None);
    assert_eq!(resp.recommended_error_handling_action(), None);
    assert_eq!(resp.http_status_code(), 200);
}

#[test]
fn scenario_unregistered_regardless_of_body() {
    let resp = response_from_parts(404, empty_body(), None).unwrap();
    assert_eq!(resp.error(), Some(FcmResponseError::Unregistered));
    assert_eq!(
        resp.recommended_error_handling_action(),
        Some(RecomendedAction::RemoveFcmAppToken)
    );

    let resp = response_from_parts(404, body_with_name(), None).unwrap();
    assert_eq!(resp.error(), Some(FcmResponseError::Unregistered));
    assert_eq!(
        resp.recommended_error_handling_action(),
        Some(RecomendedAction::RemoveFcmAppToken)
    );
}

#[test]
fn scenario_quota_exceeded_uses_the_header_value() {
    let resp = response_from_parts(429, empty_body(), Some("30")).unwrap();
    assert_eq!(resp.error(), Some(FcmResponseError::QuotaExceeded));
    assert_eq!(resp.retry_after(), Some(&RetryAfter::Delay(30)));
    assert_eq!(
        resp.recommended_error_handling_action(),
        Some(RecomendedAction::ReduceMessageRateAndRetry(
            RecomendedWaitTime::SpecificWaitTime(RetryAfter::Delay(30))
        ))
    );
}

#[test]
fn scenario_quota_exceeded_falls_back_to_the_sixty_second_floor() {
    let resp = response_from_parts(429, empty_body(), None).unwrap();
    assert_eq!(resp.error(), Some(FcmResponseError::QuotaExceeded));
    assert_eq!(resp.retry_after(), None);
    assert_eq!(
        resp.recommended_error_handling_action(),
        Some(RecomendedAction::ReduceMessageRateAndRetry(
            RecomendedWaitTime::InitialWaitTime(60)
        ))
    );
}

#[test]
fn scenario_unavailable_retries_with_header_else_ten_second_floor() {
    let resp = response_from_parts(503, empty_body(), Some("8")).unwrap();
    assert_eq!(resp.error(), Some(FcmResponseError::Unavailable));
    assert_eq!(
        resp.recommended_error_handling_action(),
        Some(RecomendedAction::Retry(RecomendedWaitTime::SpecificWaitTime(
            RetryAfter::Delay(8)
        )))
    );

    let resp = response_from_parts(503, empty_body(), None).unwrap();
    assert_eq!(
        resp.recommended_error_handling_action(),
        Some(RecomendedAction::Retry(RecomendedWaitTime::InitialWaitTime(10)))
    );

    let resp = response_from_parts(500, empty_body(), Some("30")).unwrap();
    assert_eq!(resp.error(), Some(FcmResponseError::Internal));
    assert_eq!(
        resp.recommended_error_handling_action(),
        Some(RecomendedAction::Retry(RecomendedWaitTime::InitialWaitTime(10)))
    );
}

#[test]
fn classification_is_idempotent() {
    let body = JsonValue::Obj(vec![(
        "error".to_string(),
        JsonValue::Obj(vec![(
            "status".to_string(),
            JsonValue::Str("UNSPECIFIED_ERROR".to_string()),
        )]),
    )]);
    let resp = response_from_parts(299, body, None).unwrap();
    let first = resp.error();
    let second = resp.error();
    assert_eq!(first, second);
    assert_eq!(first, Some(FcmResponseError::Unspecified));
    assert_eq!(
        resp.recommended_error_handling_action(),
        resp.recommended_error_handling_action()
    );
}

#[test]
fn status_codes_map_to_their_named_errors() {
    assert_eq!(
        FcmResponseError::try_from(400),
        Ok(FcmResponseError::InvalidArgument)
    );
    assert_eq!(
        FcmResponseError::try_from(404),
        Ok(FcmResponseError::Unregistered)
    );
    assert_eq!(
        FcmResponseError::try_from(403),
        Ok(FcmResponseError::SenderIdMismatch)
    );
    assert_eq!(
        FcmResponseError::try_from(429),
        Ok(FcmResponseError::QuotaExceeded)
    );
    assert_eq!(
        FcmResponseError::try_from(503),
        Ok(FcmResponseError::Unavailable)
    );
    assert_eq!(
        FcmResponseError::try_from(500),
        Ok(FcmResponseError::Internal)
    );
    assert_eq!(
        FcmResponseError::try_from(401),
        Ok(FcmResponseError::ThirdPartyAuth)
    );
    assert_eq!(FcmResponseError::try_from(200), Err(()));
}

#[test]
fn body_without_name_or_marker_is_unknown_not_ok() {
    let resp = response_from_parts(204, empty_body(), None).unwrap();
    assert_eq!(resp.error(), Some(FcmResponseError::Unknown));
    assert_eq!(
        resp.recommended_error_handling_action(),
        Some(RecomendedAction::HandleUnknownError)
    );
}

#[test]
fn error_code_member_takes_precedence_over_error_status() {
    let body = JsonValue::Obj(vec![
        (
            "error_code".to_string(),
            JsonValue::Str("UNSPECIFIED_ERROR".to_string()),
        ),
        (
            "error".to_string(),
            JsonValue::Obj(vec![(
                "status".to_string(),
                JsonValue::Str("SOMETHING_ELSE".to_string()),
            )]),
        ),
        ("name".to_string(), JsonValue::Str("n".to_string())),
    ]);
    let resp = FcmResponse::new(200, body, None);
    assert_eq!(resp.error(), Some(FcmResponseError::Unspecified));
}

#[test]
fn non_string_error_code_falls_back_to_error_status() {
    let body = JsonValue::Obj(vec![
        ("error_code".to_string(), JsonValue::Num("7".to_string())),
        (
            "error".to_string(),
            JsonValue::Obj(vec![(
                "status".to_string(),
                JsonValue::Str("UNSPECIFIED_ERROR".to_string()),
            )]),
        ),
    ]);
    let resp = FcmResponse::new(200, body, None);
    assert_eq!(resp.error(), Some(FcmResponseError::Unspecified));
}

#[test]
fn json_getter_returns_the_captured_body() {
    let resp = response_from_parts(200, body_with_name(), None).unwrap();
    let name = resp.json().get("name").and_then(|v| v.as_str());
    assert_eq!(name.map(|s| s.as_str()), Some("projects/p/messages/1"));
}
