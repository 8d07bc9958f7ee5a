use oauth_fcm::{create_payload, ApnsConfig, ApnsFcmOptions, FcmNotification};
use serde_json::Value;

fn parse(text: &str) -> Value {
    serde_json::from_str(text).unwrap()
}

fn pair(name: &str, value: &str) -> (String, String) {
    (name.to_string(), value.to_string())
}

#[test]
fn new_config_has_no_field() {
    let config = ApnsConfig::new();
    assert!(config.headers.is_none());
    assert!(config.payload.is_none());
    assert!(config.fcm_options.is_none());
    assert!(config.live_activity_token.is_none());
}

#[test]
fn new_config_is_an_empty_object() {
    assert_eq!(ApnsConfig::new().into_json(), parse("{}"));
}

#[test]
fn silent_push_sets_only_the_payload() {
    let config = ApnsConfig::silent_push();
    assert!(config.headers.is_none());
    assert!(config.fcm_options.is_none());
    assert!(config.live_activity_token.is_none());
    assert_eq!(config.payload, Some(parse(r#"{"aps":{"content-available":1}}"#)));
}

#[test]
fn silent_push_on_the_wire() {
    let apns = ApnsConfig::silent_push().into_json();
    assert_eq!(apns["payload"]["aps"]["content-available"], 1);
    assert_eq!(apns["payload"]["aps"]["content-available"].as_u64(), Some(1));
    assert_eq!(apns.as_object().unwrap().len(), 1);
    assert_eq!(apns["payload"].as_object().unwrap().len(), 1);
    assert_eq!(apns["payload"]["aps"].as_object().unwrap().len(), 1);
    assert_eq!(apns, parse(r#"{"payload":{"aps":{"content-available":1}}}"#));
}

#[test]
fn aps_payload_is_wrapped_under_aps() {
    let aps = parse(r#"{"alert":{"title":"Hi"},"badge":3,"sound":"default"}"#);
    let config = ApnsConfig::with_aps_payload(aps.clone());
    assert!(config.headers.is_none());
    assert!(config.fcm_options.is_none());
    assert!(config.live_activity_token.is_none());
    let payload = config.payload.clone().unwrap();
    assert_eq!(payload.as_object().unwrap().len(), 1);
    assert_eq!(payload["aps"], aps);
    assert_eq!(
        config.into_json(),
        parse(r#"{"payload":{"aps":{"alert":{"title":"Hi"},"badge":3,"sound":"default"}}}"#)
    );
}

#[test]
fn aps_payload_need_not_be_an_object() {
    let config = ApnsConfig::with_aps_payload(Value::Null);
    assert_eq!(config.into_json(), parse(r#"{"payload":{"aps":null}}"#));
}

#[test]
fn builders_set_one_field_and_keep_the_others() {
    let headers = vec![pair("apns-priority", "10")];
    let config = ApnsConfig::silent_push().with_headers(headers.clone());
    assert_eq!(config.headers, Some(headers.clone()));
    assert_eq!(config.payload, Some(parse(r#"{"aps":{"content-available":1}}"#)));
    assert!(config.fcm_options.is_none());
    assert!(config.live_activity_token.is_none());

    let options =
        ApnsFcmOptions { analytics_label: Some("label".to_string()), image: None };
    let config = config.with_fcm_options(options);
    assert_eq!(config.headers, Some(headers.clone()));
    assert_eq!(config.payload, Some(parse(r#"{"aps":{"content-available":1}}"#)));
    let kept = config.fcm_options.clone().unwrap();
    assert_eq!(kept.analytics_label.as_deref(), Some("label"));
    assert!(kept.image.is_none());
    assert!(config.live_activity_token.is_none());

    let config = config.with_live_activity_token("activity".to_string());
    assert_eq!(config.headers, Some(headers));
    assert_eq!(config.payload, Some(parse(r#"{"aps":{"content-available":1}}"#)));
    assert!(config.fcm_options.is_some());
    assert_eq!(config.live_activity_token.as_deref(), Some("activity"));
}

#[test]
fn builders_replace_an_earlier_value() {
    let config = ApnsConfig::new()
        .with_live_activity_token("first".to_string())
        .with_live_activity_token("second".to_string())
        .with_headers(vec![pair("a", "1")])
        .with_headers(vec![pair("b", "2")]);
    assert_eq!(config.into_json(), parse(r#"{"headers":{"b":"2"},"live_activity_token":"second"}"#));
}

#[test]
fn full_config_on_the_wire() {
    let config = ApnsConfig::with_aps_payload(parse(r#"{"badge":1}"#))
        .with_headers(vec![pair("apns-priority", "5"), pair("apns-expiration", "0")])
        .with_fcm_options(ApnsFcmOptions {
            analytics_label: Some("spring".to_string()),
            image: Some("https://example.com/a.png".to_string()),
        })
        .with_live_activity_token("token-1".to_string());
    let expected = parse(
        r#"{
            "headers": {"apns-priority": "5", "apns-expiration": "0"},
            "payload": {"aps": {"badge": 1}},
            "fcm_options": {"analytics_label": "spring", "image": "https://example.com/a.png"},
            "live_activity_token": "token-1"
        }"#,
    );
    assert_eq!(config.into_json(), expected);
}

#[test]
fn absent_fields_leave_no_member() {
    let only_headers = ApnsConfig::new().with_headers(vec![pair("apns-priority", "10")]).into_json();
    assert_eq!(only_headers, parse(r#"{"headers":{"apns-priority":"10"}}"#));

    let only_options = ApnsConfig::new()
        .with_fcm_options(ApnsFcmOptions { analytics_label: None, image: None })
        .into_json();
    assert_eq!(only_options, parse(r#"{"fcm_options":{}}"#));

    let only_token = ApnsConfig::new().with_live_activity_token("t".to_string()).into_json();
    assert_eq!(only_token, parse(r#"{"live_activity_token":"t"}"#));

    for apns in [only_headers, only_options, only_token, ApnsConfig::silent_push().into_json()] {
        let members = apns.as_object().unwrap();
        assert_eq!(members.len(), 1);
        assert!(members.values().all(|v| !v.is_null()));
    }
}

#[test]
fn absent_options_leave_no_member() {
    let label = ApnsFcmOptions { analytics_label: Some("l".to_string()), image: None };
    assert_eq!(label.into_json(), parse(r#"{"analytics_label":"l"}"#));
    let image = ApnsFcmOptions { analytics_label: None, image: Some("i".to_string()) };
    assert_eq!(image.into_json(), parse(r#"{"image":"i"}"#));
    let neither = ApnsFcmOptions { analytics_label: None, image: None };
    assert_eq!(neither.into_json(), parse("{}"));
    let both =
        ApnsFcmOptions { analytics_label: Some("l".to_string()), image: Some("i".to_string()) };
    assert_eq!(both.into_json(), parse(r#"{"analytics_label":"l","image":"i"}"#));
}

#[test]
fn empty_headers_are_an_empty_object() {
    let apns = ApnsConfig::new().with_headers(Vec::new()).into_json();
    assert_eq!(apns, parse(r#"{"headers":{}}"#));
}

#[test]
fn last_header_of_a_name_wins() {
    let apns = ApnsConfig::new()
        .with_headers(vec![pair("apns-priority", "5"), pair("x", "y"), pair("apns-priority", "10")])
        .into_json();
    assert_eq!(apns, parse(r#"{"headers":{"apns-priority":"10","x":"y"}}"#));
}

#[test]
fn notification_on_the_wire() {
    let n = FcmNotification { title: "T".to_string(), body: "B".to_string() };
    assert_eq!(n.into_json(), parse(r#"{"title":"T","body":"B"}"#));
}

#[test]
fn notification_with_equal_title_and_body() {
    let n = FcmNotification { title: "same".to_string(), body: "same".to_string() };
    let v = n.into_json();
    assert_eq!(v.as_object().unwrap().len(), 2);
    assert_eq!(v["title"], "same");
    assert_eq!(v["body"], "same");
}

#[test]
fn config_is_sent_under_apns_without_absent_fields() {
    let config = ApnsConfig::new().with_live_activity_token("t".to_string());
    let payload = create_payload("abc", None, None, Some(config)).unwrap();
    assert_eq!(payload, parse(r#"{"message":{"token":"abc","apns":{"live_activity_token":"t"}}}"#));
}

#[test]
fn cloned_config_serializes_alike() {
    let config = ApnsConfig::silent_push()
        .with_headers(vec![pair("apns-priority", "10")])
        .with_live_activity_token("t".to_string());
    let copy = config.clone();
    assert_eq!(config.into_json(), copy.into_json());
}
