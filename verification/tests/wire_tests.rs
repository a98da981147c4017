use fcm::android::{
    AndroidConfig, AndroidFcmOptions, AndroidMessagePriority, AndroidNotification, Color,
    LightSettings, NotificationPriority, Visibility,
};
use fcm::apns::{ApnsConfig, ApnsFcmOptions};
use fcm::json::JsonValue;
use fcm::numtext::{i32_dec, parse_u64, u32_dec};
use fcm::web::{WebpushConfig, WebpushFcmOptions};

fn empty_android_notification() -> AndroidNotification {
    AndroidNotification {
        title: None,
        body: None,
        icon: None,
        color: None,
        sound: None,
        tag: None,
        click_action: None,
        body_loc_key: None,
        body_loc_args: None,
        title_loc_key: None,
        title_loc_args: None,
        channel_id: None,
        ticker: None,
        sticky: None,
        event_time: None,
        local_only: None,
        notification_priority: None,
        default_sound: None,
        default_vibrate_timings: None,
        default_light_settings: None,
        vibrate_timings: None,
        visibility: None,
        notification_count: None,
        light_settings: None,
        image: None,
    }
}

#[test]
fn android_config_renders_tokens_counts_and_lights() {
    let notification = AndroidNotification {
        title: Some("hi".to_string()),
        body_loc_args: Some(vec!["a".to_string(), "b".to_string()]),
        sticky: Some(false),
        notification_priority: Some(NotificationPriority::PriorityHigh),
        visibility: Some(Visibility::Secret),
        notification_count: Some(-5),
        light_settings: Some(LightSettings {
            color: Color {
                red: "1".to_string(),
                green: "0.5".to_string(),
                blue: "0".to_string(),
                alpha: "1".to_string(),
            },
            light_on_duration: "3.5s".to_string(),
            light_off_duration: "1s".to_string(),
        }),
        ..empty_android_notification()
    };
    let config = AndroidConfig {
        collapse_key: Some("ck".to_string()),
        priority: Some(AndroidMessagePriority::High),
        ttl: Some("86400s".to_string()),
        restricted_package_name: None,
        data: Some(JsonValue::Obj(vec![(
            "k".to_string(),
            JsonValue::Str("v".to_string()),
        )])),
        notification: Some(notification),
        fcm_options: Some(AndroidFcmOptions {
            analytics_label: "label".to_string(),
        }),
        direct_boot_ok: Some(true),
    };

    let payload = String::from_utf8(config.to_json().to_bytes()).unwrap();
    let expected = "{\"collapse_key\":\"ck\",\"priority\":\"HIGH\",\"ttl\":\"86400s\",\"data\":{\"k\":\"v\"},\"notification\":{\"title\":\"hi\",\"body_loc_args\":[\"a\",\"b\"],\"sticky\":false,\"notification_priority\":\"PRIORITYHIGH\",\"visibility\":\"SECRET\",\"notification_count\":-5,\"light_settings\":{\"color\":{\"red\":1,\"green\":0.5,\"blue\":0,\"alpha\":1},\"light_on_duration\":\"3.5s\",\"light_off_duration\":\"1s\"}},\"fcm_options\":{\"analytics_label\":\"label\"},\"direct_boot_ok\":true}";
    assert_eq!(payload, expected);
}

#[test]
fn apns_config_omits_absent_fields() {
    let config = ApnsConfig {
        headers: None,
        payload: Some(JsonValue::Obj(vec![(
            "aps".to_string(),
            JsonValue::Obj(vec![("badge".to_string(), JsonValue::Num("3".to_string()))]),
        )])),
        fcm_options: Some(ApnsFcmOptions {
            analytics_label: None,
            image: Some("https://example.test/i.png".to_string()),
        }),
    };
    let payload = String::from_utf8(config.to_json().to_bytes()).unwrap();
    assert_eq!(
        payload,
        "{\"payload\":{\"aps\":{\"badge\":3}},\"fcm_options\":{\"image\":\"https://example.test/i.png\"}}"
    );
}

#[test]
fn webpush_config_renders_all_fields() {
    let config = WebpushConfig {
        headers: Some(JsonValue::Obj(vec![(
            "TTL".to_string(),
            JsonValue::Str("60".to_string()),
        )])),
        data: None,
        notification: Some(JsonValue::Obj(vec![(
            "tag".to_string(),
            JsonValue::Str("t".to_string()),
        )])),
        fcm_options: Some(WebpushFcmOptions {
            link: "https://example.test".to_string(),
            analytics_label: "l".to_string(),
        }),
    };
    let payload = String::from_utf8(config.to_json().to_bytes()).unwrap();
    let expected = "{\"headers\":{\"TTL\":\"60\"},\"notification\":{\"tag\":\"t\"},\"fcm_options\":{\"link\":\"https://example.test\",\"analytics_label\":\"l\"}}";
    assert_eq!(payload, expected);
}

#[test]
fn decimal_text_of_integers_is_exact() {
    assert_eq!(u32_dec(0), "0");
    assert_eq!(u32_dec(1234567890), "1234567890");
    assert_eq!(i32_dec(0), "0");
    assert_eq!(i32_dec(-1), "-1");
    assert_eq!(i32_dec(i32::MIN), "-2147483648");
    assert_eq!(i32_dec(i32::MAX), "2147483647");
}

#[test]
fn unsigned_decimal_parsing_is_exact() {
    assert_eq!(parse_u64("0"), Some(0));
    assert_eq!(parse_u64("007"), Some(7));
    assert_eq!(parse_u64("18446744073709551615"), Some(u64::MAX));
    assert_eq!(parse_u64("18446744073709551616"), None);
    assert_eq!(parse_u64(""), None);
    assert_eq!(parse_u64("-1"), None);
    assert_eq!(parse_u64("1x"), None);
}

#[test]
fn object_lookup_returns_the_first_match() {
    let obj = JsonValue::Obj(vec![
        ("k".to_string(), JsonValue::Str("first".to_string())),
        ("k".to_string(), JsonValue::Str("second".to_string())),
    ]);
    let found = obj.get("k").and_then(|v| v.as_str());
    assert_eq!(found.map(|s| s.as_str()), Some("first"));
    assert!(obj.get("missing").is_none());

    let copy = obj.duplicate();
    let found = copy.get("k").and_then(|v| v.as_str());
    assert_eq!(found.map(|s| s.as_str()), Some("first"));
}

#[test]
fn json_scalars_render_exactly() {
    let v = JsonValue::Arr(vec![
        JsonValue::Null,
        JsonValue::Bool(true),
        JsonValue::Bool(false),
        JsonValue::Num("-12.5e3".to_string()),
        JsonValue::Str("x".to_string()),
        JsonValue::Arr(vec![]),
        JsonValue::Obj(vec![]),
    ]);
    let payload = String::from_utf8(v.to_bytes()).unwrap();
    assert_eq!(payload, "[null,true,false,-12.5e3,\"x\",[],{}]");
}
