use deploy_rs::resolve_secret_password;
use deploy_rs::Json;
use deploy_rs::JsonMember;
use deploy_rs::SopsError;

fn member(key: &str, value: Json) -> JsonMember {
    JsonMember {
        key: key.to_string(),
        value,
    }
}

fn nested_document() -> Vec<JsonMember> {
    // {"a":{"b":{"c":"pw"}}}
    vec![member(
        "a",
        Json::Object(vec![member(
            "b",
            Json::Object(vec![member("c", Json::Str("pw".to_string()))]),
        )]),
    )]
}

#[test]
fn nested_key_path_resolves_password() {
    let doc = nested_document();
    assert_eq!(resolve_secret_password(&doc, "a/b/c").unwrap(), "pw");
}

#[test]
fn missing_key_is_reported() {
    let doc = nested_document();
    match resolve_secret_password(&doc, "a/x").unwrap_err() {
        SopsError::SopsKeyNotFound(m) => assert_eq!(m, "Did not find x in Map"),
        other => panic!("unexpected error: {:?}", other),
    }
}

#[test]
fn array_value_is_refused() {
    // {"a":[1,2]}
    let doc = vec![member(
        "a",
        Json::Array(vec![
            Json::Number("1".to_string()),
            Json::Number("2".to_string()),
        ]),
    )];
    assert!(matches!(
        resolve_secret_password(&doc, "a").unwrap_err(),
        SopsError::SerdeUnexpectedType(_)
    ));
}

#[test]
fn bool_and_number_leaves_stringify() {
    let doc = vec![
        member("flag", Json::Bool(true)),
        member("port", Json::Number("22".to_string())),
        member("off", Json::Bool(false)),
    ];
    assert_eq!(resolve_secret_password(&doc, "flag").unwrap(), "true");
    assert_eq!(resolve_secret_password(&doc, "off").unwrap(), "false");
    assert_eq!(resolve_secret_password(&doc, "port").unwrap(), "22");
}

#[test]
fn leaf_ends_the_walk_early() {
    let doc = vec![member("a", Json::Str("pw".to_string()))];
    assert_eq!(resolve_secret_password(&doc, "a/b").unwrap(), "pw");
}

#[test]
fn path_ending_at_object_yields_empty_password() {
    let doc = nested_document();
    assert_eq!(resolve_secret_password(&doc, "a/b").unwrap(), "");
}

#[test]
fn null_value_is_refused() {
    let doc = vec![member("a", Json::Null)];
    assert!(matches!(
        resolve_secret_password(&doc, "a").unwrap_err(),
        SopsError::SerdeUnexpectedType(_)
    ));
}
