use fcm::notification::Notification;

#[test]
fn should_be_able_to_render_a_full_notification_to_json() {
    let not = Notification {
        title: Some("foo".to_string()),
        body: Some("bar".to_string()),
        image: Some("https://my.image.com/test.jpg".to_string()),
    };

    let payload = String::from_utf8(not.finalize().to_json().to_bytes()).unwrap();

    let expected_payload =
        "{\"title\":\"foo\",\"body\":\"bar\",\"image\":\"https://my.image.com/test.jpg\"}";

    assert_eq!(expected_payload, payload);
}

#[test]
fn default_notification_renders_as_an_empty_object() {
    let not = Notification::default();
    let payload = String::from_utf8(not.to_json().to_bytes()).unwrap();
    assert_eq!(payload, "{}");
}
