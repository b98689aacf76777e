use mistserver_rs::number::parse_i32;
use mistserver_rs::status::DeleteStreamSourceStatus;
use mistserver_rs::text::{chars_of, split_at_first_space};

#[test]
fn deserialize_no_action_status() {
    let status = DeleteStreamSourceStatus::parse("0 No action");

    assert_eq!(status, DeleteStreamSourceStatus::NoAction);
}

#[test]
fn deserialize_source_deleted_status() {
    let status = DeleteStreamSourceStatus::parse("1 Source deleted");

    assert_eq!(status, DeleteStreamSourceStatus::SourceDeleted);
}

#[test]
fn deserialize_source_and_dtsh_deleted_status() {
    let status = DeleteStreamSourceStatus::parse("2 Source and DTSH deleted");

    assert_eq!(status, DeleteStreamSourceStatus::SourceAndDtshDeleted);
}

#[test]
fn deserialize_unknown_numeric_status() {
    let status = DeleteStreamSourceStatus::parse("99 Something unexpected");

    assert_eq!(
        status,
        DeleteStreamSourceStatus::Unknown(99, "Something unexpected".to_string())
    );
}

#[test]
fn deserialize_unknown_non_numeric_status() {
    let status = DeleteStreamSourceStatus::parse("unexpected");

    assert_eq!(
        status,
        DeleteStreamSourceStatus::Unknown(0, "unexpected".to_string())
    );
}

#[test]
fn status_code_may_carry_a_sign() {
    assert_eq!(
        DeleteStreamSourceStatus::parse("+2 x"),
        DeleteStreamSourceStatus::SourceAndDtshDeleted
    );
    assert_eq!(
        DeleteStreamSourceStatus::parse("-0 x"),
        DeleteStreamSourceStatus::NoAction
    );
    assert_eq!(
        DeleteStreamSourceStatus::parse("-5 gone wrong"),
        DeleteStreamSourceStatus::Unknown(-5, "gone wrong".to_string())
    );
}

#[test]
fn status_code_out_of_range_keeps_whole_text() {
    assert_eq!(
        DeleteStreamSourceStatus::parse("2147483648 big"),
        DeleteStreamSourceStatus::Unknown(0, "2147483648 big".to_string())
    );
    assert_eq!(
        DeleteStreamSourceStatus::parse("-2147483648 small"),
        DeleteStreamSourceStatus::Unknown(i32::MIN, "small".to_string())
    );
    assert_eq!(
        DeleteStreamSourceStatus::parse("2147483647 max"),
        DeleteStreamSourceStatus::Unknown(i32::MAX, "max".to_string())
    );
}

#[test]
fn status_splits_at_first_space_only() {
    assert_eq!(
        DeleteStreamSourceStatus::parse("7  two spaces"),
        DeleteStreamSourceStatus::Unknown(7, " two spaces".to_string())
    );
    assert_eq!(
        DeleteStreamSourceStatus::parse(" 1 leading"),
        DeleteStreamSourceStatus::Unknown(0, " 1 leading".to_string())
    );
    assert_eq!(
        DeleteStreamSourceStatus::parse("1 "),
        DeleteStreamSourceStatus::SourceDeleted
    );
    assert_eq!(
        DeleteStreamSourceStatus::parse("1"),
        DeleteStreamSourceStatus::Unknown(0, "1".to_string())
    );
    assert_eq!(
        DeleteStreamSourceStatus::parse(""),
        DeleteStreamSourceStatus::Unknown(0, String::new())
    );
}

fn chars(s: &str) -> Vec<char> {
    s.chars().collect()
}

#[test]
fn parse_i32_agrees_with_std() {
    for text in [
        "0", "7", "-7", "+7", "-", "+", "", "12a", "a12", "2147483647", "2147483648",
        "-2147483648", "-2147483649", "99999999999999999999", "+-1", "007", " 1",
    ] {
        assert_eq!(parse_i32(&chars(text)), text.parse::<i32>().ok(), "{text:?}");
    }
}

#[test]
fn split_at_first_space_agrees_with_std() {
    for text in ["a b c", "ab", "", " ", "é x", "日本 語 x", "x ", "  "] {
        assert_eq!(split_at_first_space(text), text.split_once(' '), "{text:?}");
    }
}

#[test]
fn chars_of_keeps_every_character() {
    assert_eq!(chars_of("aé日"), vec!['a', 'é', '日']);
    assert!(chars_of("").is_empty());
}

#[test]
fn status_with_multibyte_message() {
    assert_eq!(
        DeleteStreamSourceStatus::parse("42 Fehler: Datei gelöscht"),
        DeleteStreamSourceStatus::Unknown(42, "Fehler: Datei gelöscht".to_string())
    );
    assert_eq!(
        DeleteStreamSourceStatus::parse("１ fullwidth"),
        DeleteStreamSourceStatus::Unknown(0, "１ fullwidth".to_string())
    );
}
