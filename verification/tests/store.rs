use std::iter::repeat;

use store_normalize::annotated::Annotated;
use store_normalize::processor::{process, CapSize};
use store_normalize::protocol::{Event, Exception, Frame};
use store_normalize::store::{is_url, process_non_raw_frame, StoreNormalizeProcessor};

fn processor() -> StoreNormalizeProcessor {
    StoreNormalizeProcessor {
        project_id: Some(1),
        client_ip: None,
        auth: None,
        key_id: None,
        version: "7".into(),
    }
}

#[test]
fn test_basic_trimming() {
    let event = Annotated::new(Event {
        culprit: Annotated::new(repeat("x").take(300).collect::<String>()),
        ..Default::default()
    });

    let event = process(event, &processor());
    assert_eq!(
        event.0.unwrap().culprit,
        Annotated::new(repeat("x").take(300).collect::<String>()).trim_string(CapSize::Symbol)
    );
}

#[test]
fn test_handles_type_in_value() {
    let exception = Annotated::new(Exception {
        value: Annotated::new("ValueError: unauthorized".to_string().into()),
        ..Default::default()
    });

    let exception = process(exception, &processor()).0.unwrap();
    assert_eq!(exception.value.0, Some("unauthorized".to_string().into()));
    assert_eq!(exception.ty.0, Some("ValueError".to_string()));

    let exception = Annotated::new(Exception {
        value: Annotated::new("ValueError:unauthorized".to_string().into()),
        ..Default::default()
    });

    let exception = process(exception, &processor()).0.unwrap();
    assert_eq!(exception.value.0, Some("unauthorized".to_string().into()));
    assert_eq!(exception.ty.0, Some("ValueError".to_string()));
}

#[test]
fn test_json_value() {
    let exception = Annotated::new(Exception {
        value: Annotated::new(r#"{"unauthorized":true}"#.to_string().into()),
        ..Default::default()
    });
    let exception = process(exception, &processor()).0.unwrap();

    // Don't split a json-serialized value on the colon
    assert_eq!(
        exception.value.0,
        Some(r#"{"unauthorized":true}"#.to_string().into())
    );
    assert_eq!(exception.ty.0, None);
}

#[test]
fn test_exception_invalid() {
    let exception = Annotated::new(Exception::default());
    let exception = process(exception, &processor());

    assert_eq!(exception.1.iter_errors(), ["type or value required"]);
}

#[test]
fn test_is_url() {
    assert!(is_url("http://example.org/"));
    assert!(is_url("https://example.org/"));
    assert!(is_url("file:///tmp/filename"));
    assert!(is_url(
        "applewebdata://00000000-0000-1000-8080-808080808080"
    ));
    assert!(!is_url("app:///index.bundle")); // react native
    assert!(!is_url("webpack:///./app/index.jsx")); // webpack bundle
    assert!(!is_url("data:,"));
    assert!(!is_url("blob:\x00"));
}

#[test]
fn test_coerces_url_filenames() {
    let frame = Annotated::new(Frame {
        line: Annotated::new(1),
        filename: Annotated::new("http://foo.com/foo.js".to_string()),
        ..Default::default()
    });

    let frame = process_non_raw_frame(frame).0.unwrap();

    assert_eq!(frame.filename.0, Some("/foo.js".to_string()));
    assert_eq!(frame.abs_path.0, Some("http://foo.com/foo.js".to_string()));
}

#[test]
fn test_does_not_overwrite_filename() {
    let frame = Annotated::new(Frame {
        line: Annotated::new(1),
        filename: Annotated::new("foo.js".to_string()),
        abs_path: Annotated::new("http://foo.com/foo.js".to_string()),
        ..Default::default()
    });

    let frame = process_non_raw_frame(frame).0.unwrap();

    assert_eq!(frame.filename.0, Some("foo.js".to_string()));
    assert_eq!(frame.abs_path.0, Some("http://foo.com/foo.js".to_string()));
}

#[test]
fn test_ignores_results_with_empty_path() {
    let frame = Annotated::new(Frame {
        line: Annotated::new(1),
        abs_path: Annotated::new("http://foo.com".to_string()),
        ..Default::default()
    });

    let frame = process_non_raw_frame(frame).0.unwrap();

    assert_eq!(frame.filename.0, Some("http://foo.com".to_string()));
    assert_eq!(frame.abs_path.0, frame.filename.0);
}
