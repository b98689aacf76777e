use std::collections::HashMap;

use mistserver_rs::stream::check_stream_name_chars;
use mistserver_rs::{MistError, Stream, StreamBuilder};

#[test]
fn stream_builder_defaults() -> Result<(), MistError> {
    let stream = StreamBuilder::new("name", "push://")
        .build()?;
    assert_eq!(stream.source, "push://");
    assert!(stream.always_on.is_none());
    assert!(stream.buffer_time.is_none());
    assert!(stream.debug.is_none());
    assert!(stream.fallback_stream.is_none());
    assert!(stream.extra.is_none());

    Ok(())
}

#[test]
fn stream_builder_set_all_fields() -> Result<(), MistError> {
    let mut extra = HashMap::new();
    extra.insert("cut_time".to_string(), serde_json::Value::from(0));
    extra.insert("segment_size".to_string(), serde_json::Value::from(6000));

    let stream = StreamBuilder::new("name", "dtsc://1.2.3.4/video")
        .name("ignored")
        .always_on(true)
        .buffer_time(30000)
        .debug(4)
        .fallback_stream("backup")
        .extra(extra.clone())
        .build()?;

    assert_eq!(stream.source, "dtsc://1.2.3.4/video");
    assert_eq!(stream.always_on, Some(true));
    assert_eq!(stream.buffer_time, Some(30000));
    assert_eq!(stream.debug, Some(4));
    assert_eq!(stream.fallback_stream, Some("backup".to_string()));
    assert_eq!(stream.extra, Some(extra));

    Ok(())
}

#[test]
fn stream_builder_partial_fields() -> Result<(), MistError> {
    let stream = StreamBuilder::new("name", "file:///media/video.mp4")
        .always_on(false)
        .debug(3)
        .build()?;

    assert_eq!(stream.source, "file:///media/video.mp4");
    assert_eq!(stream.always_on, Some(false));
    assert!(stream.buffer_time.is_none());
    assert_eq!(stream.debug, Some(3));
    assert!(stream.fallback_stream.is_none());
    assert!(stream.extra.is_none());

    Ok(())
}

#[test]
fn stream_builder_keeps_name() {
    let stream = StreamBuilder::new("cam_1-a", "push://").build().unwrap();
    assert_eq!(stream.name, "cam_1-a");
    let renamed = StreamBuilder::new("first", "push://")
        .name("second")
        .build()
        .unwrap();
    assert_eq!(renamed.name, "second");
}

#[test]
fn stream_name_with_a_space_is_refused() {
    match StreamBuilder::new("my stream", "push://").build() {
        Err(MistError::Validation { target, name, error }) => {
            assert_eq!(target, "stream");
            assert_eq!(name, "my stream");
            assert_eq!(
                error,
                "only lower case letters a-z, numbers, underscores _, dashes - and periods ."
            );
        }
        other => panic!("expected an invalid name, got {other:?}"),
    }
}

#[test]
fn stream_name_with_a_period_is_refused() {
    assert!(matches!(
        StreamBuilder::new("a.b", "push://").build(),
        Err(MistError::Validation { .. })
    ));
}

#[test]
fn stream_name_of_100_bytes_is_accepted() {
    let name = "a".repeat(100);
    assert!(StreamBuilder::new(&name, "push://").build().is_ok());
}

#[test]
fn stream_name_of_101_bytes_is_too_long() {
    let name = "a".repeat(101);
    match StreamBuilder::new(&name, "push://").build() {
        Err(MistError::Validation { target, name: refused, error }) => {
            assert_eq!(target, "stream");
            assert_eq!(refused, name);
            assert_eq!(error, "Stream name can not be more than 100 char");
        }
        other => panic!("expected a name that is too long, got {other:?}"),
    }
}

#[test]
fn stream_name_length_counts_bytes() {
    // 60 characters of two bytes each: 120 bytes, too long before any character check.
    let name = "é".repeat(60);
    assert!(matches!(
        StreamBuilder::new(&name, "push://").build(),
        Err(MistError::Validation { error, .. })
            if error == "Stream name can not be more than 100 char"
    ));
    // 10 such characters fit in the length but are not allowed characters.
    let short = "é".repeat(10);
    assert!(matches!(
        StreamBuilder::new(&short, "push://").build(),
        Err(MistError::Validation { error, .. }) if error.starts_with("only lower case")
    ));
}

#[test]
fn empty_stream_name_is_accepted() {
    assert!(StreamBuilder::new("", "push://").build().is_ok());
}

#[test]
fn validate_checks_the_stream_name() {
    let stream = Stream {
        name: "bad/name".to_string(),
        source: "push://".to_string(),
        ..Default::default()
    };
    assert!(matches!(
        StreamBuilder::validate(&stream),
        Err(MistError::Validation { name, .. }) if name == "bad/name"
    ));
    assert!(check_stream_name_chars("Good_Name-01").is_ok());
    let builder = StreamBuilder::new("x", "push://");
    assert!(matches!(
        builder.validate_stream_name("x y"),
        Err(MistError::InvalidStreamName(n)) if n == "x y"
    ));
}

#[test]
fn default_stream_is_empty() {
    let stream = Stream::default();
    assert_eq!(stream.name, "");
    assert_eq!(stream.source, "");
    assert!(stream.always_on.is_none());
    assert!(stream.extra.is_none());
}
