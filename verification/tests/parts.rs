use store_normalize::annotated::{Annotated, Object, Value};
use store_normalize::mechanism::{find_darwin_signal_name, find_linux_signal_name, OsHint};
use store_normalize::processor::{process, CapSize};
use store_normalize::protocol::{Exception, Frame, Stacktrace};
use store_normalize::store::{
    choose_filename, complete_frame, parse_client_as_sdk, parse_type_and_value,
    process_non_raw_frame, process_non_raw_stacktrace, split_type_and_value, StoreAuth,
    StoreNormalizeProcessor,
};
use store_normalize::text::{split_at_most, starts_with, trim};

fn text(value: &str) -> Annotated<String> {
    Annotated::new(value.to_string())
}

fn processor() -> StoreNormalizeProcessor {
    StoreNormalizeProcessor {
        project_id: None,
        client_ip: None,
        auth: None,
        key_id: None,
        version: "7".to_string(),
    }
}

fn split(value: &str) -> (Annotated<String>, Annotated<String>) {
    parse_type_and_value(Annotated::empty(), text(value))
}

fn kept(value: &str) -> (Annotated<String>, Annotated<String>) {
    (Annotated::empty(), text(value))
}

#[test]
fn message_is_split_at_the_first_colon() {
    assert_eq!(split("A:b:c"), (text("A"), text("b:c")));
    assert_eq!(split("A_1:  b \t"), (text("A_1"), text("b")));
    assert_eq!(split("A:"), (text("A"), text("")));
    assert_eq!(split("A:\u{3000}b\u{a0}"), (text("A"), text("b")));
    assert_eq!(split("\u{41e}\u{448}: b"), (text("\u{41e}\u{448}"), text("b")));
}

#[test]
fn other_messages_are_not_split() {
    for value in ["", ":", ":b", "A b", "A b: c", "a.B: c", "[1:2]", "A:b\nc", "A:b\n", "\u{2014}: b"] {
        assert_eq!(split(value), kept(value));
    }
}

#[test]
fn type_is_kept() {
    assert_eq!(
        parse_type_and_value(text("T"), text("A: b")),
        (text("T"), text("A: b"))
    );
    assert_eq!(
        parse_type_and_value(Annotated::empty(), Annotated::empty()),
        (Annotated::empty(), Annotated::empty())
    );
}

#[test]
fn parts_of_a_message_are_used_where_the_type_is_missing() {
    let groups = || Some(("A".to_string(), " b ".to_string()));
    assert_eq!(
        split_type_and_value(Annotated::empty(), text("x"), groups()),
        (text("A"), text("b"))
    );
    assert_eq!(
        split_type_and_value(text("T"), text("x"), groups()),
        (text("T"), text("x"))
    );
    assert_eq!(
        split_type_and_value(Annotated::empty(), Annotated::empty(), groups()),
        (Annotated::empty(), Annotated::empty())
    );
    assert_eq!(split_type_and_value(Annotated::empty(), text("x"), None), kept("x"));
}

#[test]
fn invalid_exception_gets_one_error() {
    let once = process(Annotated::new(Exception::default()), &processor());
    let twice = process(once, &processor());
    assert_eq!(twice.1.iter_errors(), ["type or value required"]);

    let mut exception = Annotated::new(Exception::default());
    exception.1.add_error("other", None);
    let exception = process(exception, &processor());
    assert_eq!(exception.1.iter_errors(), ["other"]);

    let typed = Annotated::new(Exception {
        ty: text("T"),
        ..Default::default()
    });
    assert!(!process(typed, &processor()).1.has_errors());
}

fn url_trace() -> Annotated<Stacktrace> {
    Annotated::new(Stacktrace {
        frames: Annotated::new(vec![
            Annotated::new(Frame {
                filename: text("https://foo.com/a/b.js?q#f"),
                ..Default::default()
            }),
            Annotated::empty(),
        ]),
        ..Default::default()
    })
}

#[test]
fn raw_stacktrace_is_not_completed() {
    let exception = process(
        Annotated::new(Exception {
            ty: text("T"),
            stacktrace: url_trace(),
            raw_stacktrace: url_trace(),
            ..Default::default()
        }),
        &processor(),
    )
    .0
    .unwrap();
    let frames = exception.stacktrace.0.unwrap().frames.0.unwrap();
    assert_eq!(frames[0].0.as_ref().unwrap().filename, text("/a/b.js"));
    let raw = exception.raw_stacktrace.0.unwrap().frames.0.unwrap();
    let raw = raw[0].0.as_ref().unwrap();
    assert_eq!(raw.filename, text("https://foo.com/a/b.js?q#f"));
    assert_eq!(raw.abs_path, Annotated::empty());
    assert_eq!(raw.in_app, Annotated::new(false));
}

#[test]
fn stacktrace_frames_are_completed() {
    let trace = process_non_raw_stacktrace(url_trace());
    let frames = trace.0.as_ref().unwrap().frames.0.as_ref().unwrap();
    assert_eq!(frames.len(), 2);
    let frame = frames[0].0.as_ref().unwrap();
    assert_eq!(frame.filename, text("/a/b.js"));
    assert_eq!(frame.abs_path, text("https://foo.com/a/b.js?q#f"));
    assert_eq!(frames[1], Annotated::empty());
    assert_eq!(
        process_non_raw_stacktrace(process_non_raw_stacktrace(url_trace())),
        process_non_raw_stacktrace(url_trace())
    );
    assert_eq!(
        process_non_raw_stacktrace(Annotated::empty()),
        Annotated::empty()
    );
    let bare = || Annotated::new(Stacktrace::default());
    assert_eq!(process_non_raw_stacktrace(bare()), bare());
}

fn frame(filename: Annotated<String>, abs_path: Annotated<String>) -> Frame {
    Frame {
        filename,
        abs_path,
        ..Default::default()
    }
}

fn paths(frame: Frame) -> (Annotated<String>, Annotated<String>) {
    let frame = process_non_raw_frame(Annotated::new(frame)).0.unwrap();
    (frame.filename, frame.abs_path)
}

#[test]
fn frame_paths_are_completed() {
    let none = || Annotated::<String>::empty();
    assert_eq!(paths(frame(none(), none())), (none(), none()));
    assert_eq!(
        paths(frame(text("lib.rs"), none())),
        (text("lib.rs"), text("lib.rs"))
    );
    assert_eq!(
        paths(frame(none(), text("/src/lib.rs"))),
        (text("/src/lib.rs"), text("/src/lib.rs"))
    );
    assert_eq!(
        paths(frame(none(), text("file:///tmp/a.py"))),
        (text("/tmp/a.py"), text("file:///tmp/a.py"))
    );
    assert_eq!(
        paths(frame(none(), text("http://[bad"))),
        (text("http://[bad"), text("http://[bad"))
    );
    assert_eq!(
        paths(frame(none(), text("app:///index.bundle"))),
        (text("app:///index.bundle"), text("app:///index.bundle"))
    );
    assert_eq!(paths(frame(text(""), text("x"))), (text(""), text("x")));
}

#[test]
fn frame_takes_the_path_that_is_handed_in() {
    let url = "http://foo.com/x";
    let complete = |path: Option<&str>| {
        complete_frame(
            frame(Annotated::empty(), text(url)),
            path.map(|path| path.to_string()),
        )
        .filename
    };
    assert_eq!(complete(Some("/y")), text("/y"));
    assert_eq!(complete(Some("/")), text(url));
    assert_eq!(complete(Some("")), text(url));
    assert_eq!(complete(None), text(url));
    assert_eq!(choose_filename("a", Some("b".to_string())), "b");
    let plain = complete_frame(
        frame(Annotated::empty(), text("x")),
        Some("/y".to_string()),
    );
    assert_eq!(plain.filename, text("x"));
}

#[test]
fn frames_become_presentable() {
    let lines = || Annotated::new(vec![text("a"), Annotated::empty()]);
    let processed = process(
        Annotated::new(Frame {
            function: text("?"),
            symbol: text("?"),
            pre_lines: lines(),
            post_lines: lines(),
            ..Default::default()
        }),
        &processor(),
    )
    .0
    .unwrap();
    assert_eq!(processed.in_app, Annotated::new(false));
    assert_eq!(processed.function, Annotated::empty());
    assert_eq!(processed.symbol, Annotated::empty());
    assert_eq!(processed.pre_lines, Annotated::new(vec![text("a"), text("")]));
    assert_eq!(processed.post_lines, Annotated::new(vec![text("a"), text("")]));

    let kept = process(
        Annotated::new(Frame {
            function: text("main"),
            symbol: text("??"),
            in_app: Annotated::new(true),
            ..Default::default()
        }),
        &processor(),
    )
    .0
    .unwrap();
    assert_eq!(kept.function, text("main"));
    assert_eq!(kept.symbol, text("??"));
    assert_eq!(kept.in_app, Annotated::new(true));
    assert_eq!(kept.pre_lines, Annotated::empty());
}

#[test]
fn client_never_tells_its_sdk() {
    for client in ["", "raven", "raven/1.0", "raven 1.0", "a/b/c"] {
        let auth = StoreAuth {
            client: client.to_string(),
            is_public: false,
        };
        assert_eq!(parse_client_as_sdk(&auth), None);
    }
}

#[test]
fn texts_are_split_and_trimmed() {
    for (value, limit) in [("", 0), ("", 1), ("a/b", 1), ("a/b", 2), ("a/b/c", 2), ("//", 9), ("x", 3)] {
        let expected: Vec<String> = value.splitn(limit, '/').map(|part| part.to_string()).collect();
        assert_eq!(split_at_most(value, limit, '/'), expected);
    }
    for value in ["", " ", " a ", "\u{85}a b\u{2028}", "\u{200b}a", "\u{1680}\u{2003}"] {
        assert_eq!(trim(value), value.trim());
    }
    assert!(starts_with("abc", "ab"));
    assert!(starts_with("abc", ""));
    assert!(!starts_with("ab", "abc"));
    assert!(!starts_with("xbc", "ab"));
}

#[test]
fn limits_count_characters() {
    let long = "\u{fc}".repeat(129);
    let Annotated(cut, meta) = text(&long).trim_string(CapSize::EnumLike);
    assert_eq!(cut, Some("\u{fc}".repeat(125) + "..."));
    assert_eq!(meta.original_length, Some(129));
    assert_eq!(
        text(&"x".repeat(128)).trim_string(CapSize::EnumLike),
        text(&"x".repeat(128))
    );
    assert_eq!(
        Annotated::<String>::empty().trim_string(CapSize::Message),
        Annotated::empty()
    );
    let once = || text(&"x".repeat(9_000)).trim_string(CapSize::Message);
    assert_eq!(once().trim_string(CapSize::Message), once());
}

#[test]
fn object_holds_one_entry_per_name() {
    let object = Object::new()
        .insert("a".to_string(), Annotated::new(Value::I64(1)))
        .insert("b".to_string(), Annotated::new(Value::I64(2)))
        .insert("a".to_string(), Annotated::new(Value::I64(3)));
    assert_eq!(object.get("a"), Some(&Annotated::new(Value::I64(3))));
    assert_eq!(object.get("b"), Some(&Annotated::new(Value::I64(2))));
    assert_eq!(object.get("c"), None);
}

#[test]
fn signals_are_named_by_system() {
    assert_eq!(find_linux_signal_name(11), Some("SIGSEGV"));
    assert_eq!(find_darwin_signal_name(11), Some("SIGSEGV"));
    assert_eq!(find_linux_signal_name(7), Some("SIGBUS"));
    assert_eq!(find_darwin_signal_name(7), Some("SIGEMT"));
    assert_eq!(find_linux_signal_name(31), Some("SIGSYS"));
    assert_eq!(find_darwin_signal_name(31), Some("SIGUSR2"));
    assert_eq!(find_linux_signal_name(0), None);
    assert_eq!(find_darwin_signal_name(32), None);
    assert_eq!(OsHint::from_name("android"), Some(OsHint::Linux));
    assert_eq!(OsHint::from_name("tvos"), Some(OsHint::Darwin));
    assert_eq!(OsHint::from_name("Linux"), None);
}
