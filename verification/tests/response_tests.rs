use fcm::response::RetryAfter;

#[test]
fn test_retry_after_from_seconds() {
    let expected_wait_time: u64 = 1;
    let expected = RetryAfter::Delay(1);
    assert_eq!(expected, RetryAfter::from_str("1").unwrap());
    assert_eq!(
        expected_wait_time,
        expected.wait_time_with_time_provider(0)
    );
}

#[test]
fn test_retry_after_from_date() {
    let date = "Sun, 06 Nov 1994 08:49:37 GMT";
    let date_time: i64 = 784111777;
    let retry_after = RetryAfter::from_str(date).unwrap();

    assert_eq!(RetryAfter::DateTime(date_time), retry_after);

    assert_eq!(0, retry_after.wait_time_with_time_provider(date_time));
}

#[test]
fn test_retry_after_from_date_and_get_wait_time_using_future_date() {
    let date = "Sun, 06 Nov 1994 08:49:37 GMT";
    let retry_after = RetryAfter::from_str(date).unwrap();
    let future_date = "Sun, 06 Nov 1994 08:49:38 GMT";
    let future_date_time = match RetryAfter::from_str(future_date).unwrap() {
        RetryAfter::DateTime(t) => t,
        RetryAfter::Delay(_) => panic!("date parsed as a delay"),
    };

    assert_eq!(
        0,
        retry_after.wait_time_with_time_provider(future_date_time)
    );
}

#[test]
fn test_retry_after_from_date_and_get_wait_time_using_past_date() {
    let date = "Sun, 06 Nov 1994 08:49:37 GMT";
    let retry_after = RetryAfter::from_str(date).unwrap();
    let past_date = "Sun, 06 Nov 1994 08:49:36 GMT";
    let past_date_time = match RetryAfter::from_str(past_date).unwrap() {
        RetryAfter::DateTime(t) => t,
        RetryAfter::Delay(_) => panic!("date parsed as a delay"),
    };

    assert_eq!(
        1,
        retry_after.wait_time_with_time_provider(past_date_time)
    );
}

#[test]
fn test_retry_after_from_date_and_get_wait_time_using_different_timezone() {
    let expected_wait_time: u64 = 60 * 60;
    let date = "Sun, 06 Nov 1994 08:49:37 GMT";
    let retry_after = RetryAfter::from_str(date).unwrap();
    let past_date = "Sun, 06 Nov 1994 08:49:37 +0100";
    let past_date_time = match RetryAfter::from_str(past_date).unwrap() {
        RetryAfter::DateTime(t) => t,
        RetryAfter::Delay(_) => panic!("date parsed as a delay"),
    };

    assert_eq!(
        expected_wait_time,
        retry_after.wait_time_with_time_provider(past_date_time)
    );
}

#[test]
fn retry_after_parses_seconds_then_date_and_rejects_the_rest() {
    assert_eq!(RetryAfter::from_str("120").unwrap(), RetryAfter::Delay(120));
    assert_eq!(
        RetryAfter::from_str("Sun, 06 Nov 1994 08:49:37 GMT").unwrap(),
        RetryAfter::DateTime(784111777)
    );
    assert!(RetryAfter::from_str("soon").is_err());
    assert!(RetryAfter::from_str("").is_err());
    assert!(RetryAfter::from_str("12 parsecs").is_err());
    assert!(RetryAfter::from_str("18446744073709551616").is_err());
}

#[test]
fn wait_time_for_a_relative_delay_ignores_the_clock() {
    assert_eq!(RetryAfter::Delay(5).wait_time(), 5);
}
