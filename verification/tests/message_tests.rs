use fcm::json::JsonValue;
use fcm::message::{Message, MessageWrapper, Target, is_validate_only_default, read_target};
use fcm::notification::Notification;

fn message_with_target(target: Target) -> Message {
    Message {
        target,
        data: None,
        notification: None,
        android: None,
        webpush: None,
        apns: None,
        fcm_options: None,
    }
}

fn payload_string(msg: &Message) -> String {
    String::from_utf8(msg.to_bytes()).unwrap()
}

#[test]
fn should_create_new_message() {
    let target = Target::Token("token".to_string());
    let msg = message_with_target(target.clone()).finalize();

    assert_eq!(msg.target, target);
}

#[test]
fn should_leave_nones_out_of_the_json() {
    let target = Target::Token("token".to_string());
    let msg = message_with_target(target).finalize();
    let payload = payload_string(&msg);

    let expected_payload = "{\"token\":\"token\"}";

    assert_eq!(expected_payload, payload);
}

#[test]
fn should_add_custom_data_to_the_payload() {
    let target = Target::Token("token".to_string());
    let data = JsonValue::Obj(vec![
        ("foo".to_string(), JsonValue::Str("bar".to_string())),
        ("bar".to_string(), JsonValue::Bool(false)),
    ]);

    let builder = Message {
        target,
        data: Some(data),
        notification: None,
        android: None,
        webpush: None,
        apns: None,
        fcm_options: None,
    };

    let msg = builder.finalize();
    let payload = payload_string(&msg);

    let expected_payload = "{\"data\":{\"foo\":\"bar\",\"bar\":false},\"token\":\"token\"}";

    assert_eq!(expected_payload, payload);
}

#[test]
fn should_be_able_to_render_a_full_token_message_to_json() {
    let target = Target::Token("token".to_string());
    let notification = Notification {
        title: None,
        body: None,
        image: None,
    };
    let builder = Message {
        target,
        data: None,
        notification: Some(notification),
        android: None,
        webpush: None,
        apns: None,
        fcm_options: None,
    };

    let payload = payload_string(&builder.finalize());

    let expected_payload = "{\"notification\":{},\"token\":\"token\"}";

    assert_eq!(expected_payload, payload);
}

#[test]
fn should_be_able_to_render_a_full_topic_message_to_json() {
    let target = Target::Topic("my_topic".to_string());
    let notification = Notification {
        title: None,
        body: None,
        image: None,
    };
    let builder = Message {
        target,
        data: None,
        notification: Some(notification),
        android: None,
        webpush: None,
        apns: None,
        fcm_options: None,
    };

    let payload = payload_string(&builder.finalize());

    let expected_payload = "{\"notification\":{},\"topic\":\"my_topic\"}";

    assert_eq!(expected_payload, payload);
}

#[test]
fn should_be_able_to_render_a_full_condition_message_to_json() {
    let target = Target::Condition("my_condition".to_string());
    let notification = Notification {
        title: None,
        body: None,
        image: None,
    };
    let builder = Message {
        target,
        data: None,
        notification: Some(notification),
        android: None,
        webpush: None,
        apns: None,
        fcm_options: None,
    };

    let payload = payload_string(&builder.finalize());

    let expected_payload = "{\"notification\":{},\"condition\":\"my_condition\"}";

    assert_eq!(expected_payload, payload);
}

#[test]
fn should_set_notifications() {
    let target = Target::Token("token".to_string());

    let nm = Notification {
        title: None,
        body: None,
        image: None,
    };

    let builder = Message {
        target,
        data: None,
        notification: Some(nm),
        android: None,
        webpush: None,
        apns: None,
        fcm_options: None,
    };
    let msg = builder.finalize();

    assert!(msg.notification.is_some());
}

#[test]
fn target_round_trips_through_the_encoded_object() {
    let targets = vec![
        Target::Token("device-1".to_string()),
        Target::Topic("news".to_string()),
        Target::Condition("'a' in topics".to_string()),
    ];
    for target in targets {
        let msg = Message {
            target: target.clone(),
            data: Some(JsonValue::Obj(vec![(
                "k".to_string(),
                JsonValue::Str("v".to_string()),
            )])),
            notification: Some(Notification {
                title: Some("t".to_string()),
                body: None,
                image: None,
            }),
            android: None,
            webpush: None,
            apns: None,
            fcm_options: None,
        };
        let encoded = msg.to_json();
        assert_eq!(read_target(&encoded), Some(target));
    }
}

#[test]
fn string_content_is_escaped_in_the_wire_form() {
    let target = Target::Token("a\"b\\c\nd".to_string());
    let msg = message_with_target(target);
    let payload = payload_string(&msg);

    assert_eq!(payload, "{\"token\":\"a\\\"b\\\\c\\nd\"}");
}

#[test]
fn control_bytes_use_unicode_escapes() {
    let target = Target::Token("a\u{1}b".to_string());
    let msg = message_with_target(target);
    let payload = payload_string(&msg);

    assert_eq!(payload, "{\"token\":\"a\\u0001b\"}");
}

#[test]
fn envelope_omits_validate_only_unless_dry_run() {
    let msg = message_with_target(Target::Token("t".to_string()));
    let wrapper = MessageWrapper::new(msg, false);
    let body = String::from_utf8(wrapper.to_bytes()).unwrap();
    assert_eq!(body, "{\"message\":{\"token\":\"t\"}}");

    let msg = message_with_target(Target::Token("t".to_string()));
    let wrapper = MessageWrapper::new(msg, true);
    let body = String::from_utf8(wrapper.to_bytes()).unwrap();
    assert_eq!(body, "{\"validate_only\":true,\"message\":{\"token\":\"t\"}}");

    assert!(is_validate_only_default(&false));
    assert!(!is_validate_only_default(&true));
}

#[test]
fn read_target_fails_without_a_target_member() {
    let obj = JsonValue::Obj(vec![("data".to_string(), JsonValue::Obj(vec![]))]);
    assert_eq!(read_target(&obj), None);

    let not_a_string = JsonValue::Obj(vec![("token".to_string(), JsonValue::Num("5".to_string()))]);
    assert_eq!(read_target(&not_a_string), None);
}
