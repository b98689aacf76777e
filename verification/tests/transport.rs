use mistserver_rs::config::{Config, ConfigBuilder};
use mistserver_rs::digest::to_lower_hex;
use mistserver_rs::transport::{
    build_request_url, check_api_answer, check_api_error, drop_incomplete_marker,
};
use mistserver_rs::MistError;

#[test]
fn request_url_carries_command_in_query() {
    let url = build_request_url("http://localhost:4242/api", r#"{"a":1}"#).unwrap();
    assert_eq!(url, "http://localhost:4242/api?command=%7B%22a%22%3A1%7D");
}

#[test]
fn request_url_keeps_existing_query() {
    let url = build_request_url("http://example.com/api?x=1", "a b").unwrap();
    assert_eq!(url, "http://example.com/api?x=1&command=a+b");
}

#[test]
fn request_url_refuses_relative_address() {
    assert!(matches!(
        build_request_url("not a url", "{}"),
        Err(MistError::InvalidUrl(_))
    ));
}

#[test]
fn api_error_message_becomes_error() {
    match check_api_error(Some("denied".to_string())) {
        Err(MistError::Api { message }) => assert_eq!(message, "denied"),
        other => panic!("expected an API error, got {other:?}"),
    }
    assert!(check_api_error(None).is_ok());
}

#[test]
fn api_answer_with_error_field_is_an_api_error() {
    match check_api_answer(r#"{"error":"no such stream","streams":{}}"#) {
        Err(MistError::Api { message }) => assert_eq!(message, "no such stream"),
        other => panic!("expected an API error, got {other:?}"),
    }
}

#[test]
fn api_answer_without_string_error_is_accepted() {
    assert!(check_api_answer(r#"{"streams":{"cam":{}}}"#).is_ok());
    assert!(check_api_answer(r#"{"error":5}"#).is_ok());
    assert!(check_api_answer(r#"{"error":null}"#).is_ok());
    assert!(check_api_answer("[1, 2]").is_ok());
    assert!(check_api_answer("null").is_ok());
}

#[test]
fn api_answer_that_is_not_json_is_a_serialization_error() {
    assert!(matches!(
        check_api_answer("<html>oops</html>"),
        Err(MistError::Serialization(_))
    ));
    assert!(matches!(check_api_answer(""), Err(MistError::Serialization(_))));
}

#[test]
fn incomplete_marker_is_dropped() {
    let entries = vec![
        ("cam1".to_string(), 1),
        ("incomplete list".to_string(), 2),
        ("cam2".to_string(), 3),
    ];
    let kept = drop_incomplete_marker(entries);
    assert_eq!(kept, vec![("cam1".to_string(), 1), ("cam2".to_string(), 3)]);
    assert!(drop_incomplete_marker(Vec::<(String, u8)>::new()).is_empty());
}

#[test]
fn lower_hex_of_md5_digest() {
    let digest = md5::compute("");
    assert_eq!(to_lower_hex(&digest.0), "d41d8cd98f00b204e9800998ecf8427e");
    assert_eq!(to_lower_hex(&[0x00, 0x0f, 0xa0, 0xff]), "000fa0ff");
}

#[test]
fn config_builder_sets_url_and_credentials() {
    let config = ConfigBuilder::new("http://localhost:8080/api").build();
    assert_eq!(
        config,
        Config {
            mist_api_url: "http://localhost:8080/api".into(),
            auth: None,
        }
    );
    let with_auth = ConfigBuilder::new("http://localhost:8080/api")
        .with_auth("admin", "password")
        .build();
    assert_eq!(
        with_auth.auth,
        Some(("admin".to_string(), "password".to_string()))
    );
}
