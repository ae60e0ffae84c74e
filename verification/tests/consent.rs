use axeptio_consent::json::{FieldValue, PurposeValue};
use axeptio_consent::policy::{evaluate, Consent};
use axeptio_consent::record::{ConsentRecord, DecodeFailure};
use axeptio_consent::Component;

fn make_axeptio_cookie(value: serde_json::Value) -> String {
    let s = serde_json::to_string(&value).unwrap();
    urlencoding::encode(&s).to_string()
}

fn obj(entries: Vec<(&str, serde_json::Value)>) -> serde_json::Value {
    let mut m = serde_json::Map::new();
    for (k, v) in entries {
        m.insert(k.to_string(), v);
    }
    serde_json::Value::Object(m)
}

fn dict(entries: Vec<(&str, String)>) -> Vec<(String, String)> {
    entries.into_iter().map(|(k, v)| (k.to_string(), v)).collect()
}

#[test]
fn test_consent_pending() {
    let cookies = vec![];

    assert_eq!(
        Component::map(cookies, Default::default()),
        Some(Consent::Pending)
    );
}

#[test]
fn test_consent_granted() {
    let cookies = dict(vec![(
        "axeptio_cookies",
        make_axeptio_cookie(obj(vec![("$$completed", serde_json::Value::Bool(true))])),
    )]);

    assert_eq!(
        Component::map(cookies, Default::default()),
        Some(Consent::Granted)
    );
}

#[test]
fn test_consent_denied() {
    let cookies = dict(vec![(
        "axeptio_cookies",
        make_axeptio_cookie(obj(vec![
            ("$$completed", serde_json::Value::Bool(true)),
            ("granted", serde_json::Value::Bool(false)),
        ])),
    )]);

    assert_eq!(
        Component::map(cookies, Default::default()),
        Some(Consent::Denied)
    );
}

#[test]
fn test_other_cookies_pending() {
    let cookies = dict(vec![("foo", "bar".to_string())]);
    assert_eq!(
        Component::map(cookies, Default::default()),
        Some(Consent::Pending)
    );
}

#[test]
fn test_empty_cookie_value_pending() {
    let cookies = dict(vec![("axeptio_cookies", "".to_string())]);
    assert_eq!(
        Component::map(cookies, Default::default()),
        Some(Consent::Pending)
    );
}

#[test]
fn test_completed_false_pending() {
    let cookies = dict(vec![(
        "axeptio_cookies",
        make_axeptio_cookie(obj(vec![
            ("$$completed", serde_json::Value::Bool(false)),
            ("granted", serde_json::Value::Bool(false)),
        ])),
    )]);
    assert_eq!(
        Component::map(cookies, Default::default()),
        Some(Consent::Pending)
    );
}

#[test]
fn test_completed_absent_pending() {
    let cookies = dict(vec![(
        "axeptio_cookies",
        make_axeptio_cookie(obj(vec![("granted", serde_json::Value::Bool(true))])),
    )]);
    assert_eq!(
        Component::map(cookies, Default::default()),
        Some(Consent::Pending)
    );
}

#[test]
fn test_malformed_json_pending() {
    let cookies = dict(vec![("axeptio_cookies", "not%20json".to_string())]);
    assert_eq!(
        Component::map(cookies, Default::default()),
        Some(Consent::Pending)
    );
}

#[test]
fn test_non_object_json_pending() {
    let cookies = dict(vec![(
        "axeptio_cookies",
        urlencoding::encode("[1,2]").to_string(),
    )]);
    assert_eq!(
        Component::map(cookies, Default::default()),
        Some(Consent::Pending)
    );
}

#[test]
fn test_gcm_denied() {
    let cookies = dict(vec![(
        "axeptio_cookies",
        make_axeptio_cookie(obj(vec![
            ("$$completed", serde_json::Value::Bool(true)),
            (
                "$$googleConsentMode",
                obj(vec![
                    ("ads", serde_json::Value::String("granted".to_string())),
                    ("analytics", serde_json::Value::String("denied".to_string())),
                ]),
            ),
        ])),
    )]);
    assert_eq!(
        Component::map(cookies, Default::default()),
        Some(Consent::Denied)
    );
}

#[test]
fn test_gcm_version_skipped() {
    let cookies = dict(vec![(
        "axeptio_cookies",
        make_axeptio_cookie(obj(vec![
            ("$$completed", serde_json::Value::Bool(true)),
            (
                "$$googleConsentMode",
                obj(vec![
                    ("version", serde_json::Value::String("2".to_string())),
                    ("ads", serde_json::Value::String("granted".to_string())),
                ]),
            ),
        ])),
    )]);
    assert_eq!(
        Component::map(cookies, Default::default()),
        Some(Consent::Granted)
    );
}

#[test]
fn test_gcm_wait_for_update_skipped() {
    let cookies = dict(vec![(
        "axeptio_cookies",
        make_axeptio_cookie(obj(vec![
            ("$$completed", serde_json::Value::Bool(true)),
            (
                "$$googleConsentMode",
                obj(vec![(
                    "wait_for_update",
                    serde_json::Value::String("denied".to_string()),
                )]),
            ),
        ])),
    )]);
    assert_eq!(
        Component::map(cookies, Default::default()),
        Some(Consent::Granted)
    );
}

#[test]
fn test_gcm_non_string_value_skipped() {
    let cookies = dict(vec![(
        "axeptio_cookies",
        make_axeptio_cookie(obj(vec![
            ("$$completed", serde_json::Value::Bool(true)),
            (
                "$$googleConsentMode",
                obj(vec![("ads", serde_json::Value::Bool(false))]),
            ),
        ])),
    )]);
    assert_eq!(
        Component::map(cookies, Default::default()),
        Some(Consent::Granted)
    );
}

#[test]
fn test_reserved_extra_field_skipped() {
    let cookies = dict(vec![(
        "axeptio_cookies",
        make_axeptio_cookie(obj(vec![
            ("$$completed", serde_json::Value::Bool(true)),
            ("$$custom", serde_json::Value::Bool(false)),
        ])),
    )]);
    assert_eq!(
        Component::map(cookies, Default::default()),
        Some(Consent::Granted)
    );
}

#[test]
fn test_non_bool_extra_field_skipped() {
    let cookies = dict(vec![(
        "axeptio_cookies",
        make_axeptio_cookie(obj(vec![
            ("$$completed", serde_json::Value::Bool(true)),
            ("note", serde_json::Value::String("hello".to_string())),
            ("count", serde_json::Value::Number(serde_json::Number::from(3u32))),
        ])),
    )]);
    assert_eq!(
        Component::map(cookies, Default::default()),
        Some(Consent::Granted)
    );
}

#[test]
fn test_extra_field_true_granted() {
    let cookies = dict(vec![(
        "axeptio_cookies",
        make_axeptio_cookie(obj(vec![
            ("$$completed", serde_json::Value::Bool(true)),
            ("stats", serde_json::Value::Bool(true)),
        ])),
    )]);
    assert_eq!(
        Component::map(cookies, Default::default()),
        Some(Consent::Granted)
    );
}

#[test]
fn test_map_idempotent() {
    let cookies = dict(vec![(
        "axeptio_cookies",
        make_axeptio_cookie(obj(vec![
            ("$$completed", serde_json::Value::Bool(true)),
            ("granted", serde_json::Value::Bool(false)),
        ])),
    )]);
    let first = Component::map(cookies.clone(), Default::default());
    let second = Component::map(cookies, Default::default());
    assert_eq!(first, second);
    assert_eq!(first, Some(Consent::Denied));
}

#[test]
fn test_last_duplicate_cookie_wins() {
    let granted = make_axeptio_cookie(obj(vec![("$$completed", serde_json::Value::Bool(true))]));
    let cookies = dict(vec![
        ("axeptio_cookies", "".to_string()),
        ("axeptio_cookies", granted),
    ]);
    assert_eq!(
        Component::map(cookies, Default::default()),
        Some(Consent::Granted)
    );
}

#[test]
fn test_percent_escapes_are_decoded() {
    // "%7B%22%24%24completed%22%3Atrue%7D" is the encoding of
    // {"$$completed":true}; taking the value as it stands would not parse.
    let cookies = dict(vec![(
        "axeptio_cookies",
        "%7B%22%24%24completed%22%3Atrue%7D".to_string(),
    )]);
    assert_eq!(
        Component::map(cookies, Default::default()),
        Some(Consent::Granted)
    );
}

#[test]
fn test_completed_type_mismatch_pending() {
    let cookies = dict(vec![(
        "axeptio_cookies",
        make_axeptio_cookie(obj(vec![(
            "$$completed",
            serde_json::Value::String("yes".to_string()),
        )])),
    )]);
    assert_eq!(
        Component::map(cookies, Default::default()),
        Some(Consent::Pending)
    );
}

#[test]
fn test_gcm_type_mismatch_pending() {
    let cookies = dict(vec![(
        "axeptio_cookies",
        make_axeptio_cookie(obj(vec![
            ("$$completed", serde_json::Value::Bool(true)),
            (
                "$$googleConsentMode",
                serde_json::Value::String("x".to_string()),
            ),
        ])),
    )]);
    assert_eq!(
        Component::map(cookies, Default::default()),
        Some(Consent::Pending)
    );
}

#[test]
fn test_from_dict_cookie_not_found() {
    let r = ConsentRecord::from_dict(&vec![]);
    assert!(matches!(r, Err(DecodeFailure::CookieNotFound)));
}

#[test]
fn test_from_dict_decode_error() {
    let cookies = dict(vec![("axeptio_cookies", "%FF".to_string())]);
    let r = ConsentRecord::from_dict(&cookies);
    assert!(matches!(r, Err(DecodeFailure::DecodeError)));
}

#[test]
fn test_from_dict_parse_error() {
    let cookies = dict(vec![(
        "axeptio_cookies",
        urlencoding::encode("{\"$$completed\":").to_string(),
    )]);
    let r = ConsentRecord::from_dict(&cookies);
    assert!(matches!(r, Err(DecodeFailure::ParseError)));
}

#[test]
fn test_from_dict_fields() {
    let cookies = dict(vec![(
        "axeptio_cookies",
        make_axeptio_cookie(obj(vec![
            ("$$completed", serde_json::Value::Bool(true)),
            ("stats", serde_json::Value::Bool(true)),
        ])),
    )]);
    let rec = ConsentRecord::from_dict(&cookies).unwrap();
    assert_eq!(rec.completed, Some(true));
    assert!(rec.google_consent_mode.is_none());
    assert_eq!(rec.extra_fields.len(), 1);
    assert_eq!(rec.extra_fields[0].0, "stats");
    assert!(matches!(rec.extra_fields[0].1, FieldValue::Bool(true)));
}

#[test]
fn test_evaluate_extra_denial() {
    let rec = ConsentRecord {
        completed: Some(true),
        google_consent_mode: None,
        extra_fields: vec![("a".to_string(), FieldValue::Bool(false))],
    };
    assert_eq!(evaluate(&rec), Consent::Denied);
}

#[test]
fn test_evaluate_purpose_denial() {
    let rec = ConsentRecord {
        completed: Some(true),
        google_consent_mode: Some(vec![(
            "ads".to_string(),
            PurposeValue::Str("refused".to_string()),
        )]),
        extra_fields: vec![],
    };
    assert_eq!(evaluate(&rec), Consent::Denied);
}

#[test]
fn test_evaluate_not_completed() {
    let rec = ConsentRecord {
        completed: None,
        google_consent_mode: Some(vec![(
            "ads".to_string(),
            PurposeValue::Str("refused".to_string()),
        )]),
        extra_fields: vec![],
    };
    assert_eq!(evaluate(&rec), Consent::Pending);
}
