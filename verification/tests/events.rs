use store_normalize::annotated::{Annotated, Meta, Object, RemarkType, Value};
use store_normalize::processor::{process, Processor, ProcessingState};
use store_normalize::protocol::{
    Breadcrumb, ClientSdkInfo, Contexts, DebugMeta, Event, EventType, Exception, Frame, IpAddr,
    Level, MachException, Mechanism, MechanismMeta, OsContext, PosixSignal, Request, Stacktrace,
    SystemSdkInfo, Tag, Tags, Timestamp, User, Values,
};
use store_normalize::store::{StoreAuth, StoreNormalizeProcessor};

fn text(value: &str) -> Annotated<String> {
    Annotated::new(value.to_string())
}

fn address(value: &str) -> Annotated<IpAddr> {
    Annotated::new(IpAddr(value.to_string()))
}

fn plain() -> StoreNormalizeProcessor {
    StoreNormalizeProcessor {
        project_id: None,
        client_ip: None,
        auth: None,
        key_id: None,
        version: "7".to_string(),
    }
}

fn with_client(client_ip: &str, is_public: bool) -> StoreNormalizeProcessor {
    StoreNormalizeProcessor {
        client_ip: Some(client_ip.to_string()),
        auth: Some(StoreAuth {
            client: "raven-python/4.2".to_string(),
            is_public,
        }),
        ..plain()
    }
}

fn run(event: Event, processor: &StoreNormalizeProcessor) -> Event {
    process(Annotated::new(event), processor).0.unwrap()
}

fn tag(key: Annotated<String>, value: Annotated<String>) -> Tag {
    Annotated::new((key, value))
}

fn request_from(remote: Value) -> Annotated<Request> {
    let env = Object::new().insert("REMOTE_ADDR".to_string(), Annotated::new(remote));
    Annotated::new(Request {
        env: Annotated::new(env),
        ..Default::default()
    })
}

fn remote_of(request: &Annotated<Request>) -> &Annotated<Value> {
    let request = request.0.as_ref().unwrap();
    request.env.0.as_ref().unwrap().get("REMOTE_ADDR").unwrap()
}

fn listed(exceptions: Vec<Annotated<Exception>>) -> Annotated<Values<Exception>> {
    Annotated::new(Values {
        values: Annotated::new(exceptions),
        ..Default::default()
    })
}

fn exceptions_of(event: &Event) -> &Vec<Annotated<Exception>> {
    event.exceptions.0.as_ref().unwrap().values.0.as_ref().unwrap()
}

fn trace(abs_path: &str) -> Annotated<Stacktrace> {
    Annotated::new(Stacktrace {
        frames: Annotated::new(vec![Annotated::new(Frame {
            abs_path: text(abs_path),
            ..Default::default()
        })]),
        ..Default::default()
    })
}

fn filename_in(stacktrace: &Annotated<Stacktrace>) -> Option<String> {
    let frames = stacktrace.0.as_ref().unwrap().frames.0.as_ref().unwrap();
    frames[0].0.as_ref().unwrap().filename.0.clone()
}

#[test]
fn empty_event_is_completed() {
    let processor = StoreNormalizeProcessor {
        project_id: Some(42),
        key_id: Some("123".to_string()),
        ..plain()
    };
    let event = run(Event::default(), &processor);
    assert_eq!(event.project, Annotated::new(42));
    assert_eq!(event.key_id, text("123"));
    assert_eq!(event.version, text("7"));
    assert_eq!(event.ty, Annotated::new(EventType::Default));
    assert_eq!(event.level, Annotated::new(Level::Error));
    assert_eq!(event.logger, text(""));
    assert_eq!(event.extra, Annotated::new(Object::new()));
    assert_eq!(event.errors, Annotated::new(vec![]));
    assert_eq!(event.tags, Annotated::new(Tags(vec![])));
    assert_eq!(event.environment, Annotated::empty());
    assert_eq!(event.user, Annotated::empty());
    assert_eq!(event.client_sdk, Annotated::empty());
}

#[test]
fn times_are_read_off_the_clock() {
    let event = run(Event::default(), &plain());
    let received = event.received.0.unwrap();
    let timestamp = event.timestamp.0.unwrap();
    // Some time after the start of 2020.
    assert!(received.seconds > 1_577_836_800);
    assert!(timestamp.seconds > 1_577_836_800);
    assert!(received.nanoseconds < 1_000_000_000);

    let reported = Timestamp { seconds: 5, nanoseconds: 6 };
    let event = run(
        Event {
            timestamp: Annotated::new(reported),
            received: Annotated::new(reported),
            ..Default::default()
        },
        &plain(),
    );
    assert_eq!(event.timestamp, Annotated::new(reported));
    assert!(event.received.0.unwrap().seconds > 1_577_836_800);
}

#[test]
fn given_times_are_used() {
    let created = Timestamp { seconds: 1, nanoseconds: 2 };
    let received = Timestamp { seconds: 3, nanoseconds: 4 };
    let event = plain().normalize_event(Event::default(), created, received);
    assert_eq!(event.timestamp, Annotated::new(created));
    assert_eq!(event.received, Annotated::new(received));
}

#[test]
fn second_run_only_renews_the_time_of_receipt() {
    let build = || Event {
        culprit: text(&"x".repeat(300)),
        tags: Annotated::new(Tags(vec![
            tag(text("environment"), text("prod")),
            tag(text("a"), text("b")),
        ])),
        request: request_from(Value::String("{{auto}}".to_string())),
        exceptions: listed(vec![Annotated::new(Exception {
            value: Annotated::new("ValueError: x".to_string().into()),
            ..Default::default()
        })]),
        stacktrace: trace("http://foo.com/foo.js"),
        ..Default::default()
    };
    let processor = with_client("10.0.0.1", true);
    let mut once = run(build(), &processor);
    let mut twice = run(run(build(), &processor), &processor);
    let time = Timestamp { seconds: 0, nanoseconds: 0 };
    once.received = Annotated::new(time);
    twice.received = Annotated::new(time);
    once.timestamp = Annotated::new(time);
    twice.timestamp = Annotated::new(time);
    assert_eq!(once, twice);
}

#[test]
fn reported_attributes_are_kept() {
    let event = run(
        Event {
            project: Annotated::new(3),
            level: Annotated::new(Level::Fatal),
            logger: text("root"),
            release: text("1.0"),
            dist: text("4"),
            platform: text("python"),
            ..Default::default()
        },
        &plain(),
    );
    assert_eq!(event.project, Annotated::new(3));
    assert_eq!(event.level, Annotated::new(Level::Fatal));
    assert_eq!(event.logger, text("root"));
    assert_eq!(event.dist, text("4"));
    assert_eq!(event.platform, text("python"));
}

#[test]
fn dist_needs_a_release() {
    let event = run(
        Event {
            dist: text("4"),
            ..Default::default()
        },
        &plain(),
    );
    assert_eq!(event.dist, Annotated::empty());
}

#[test]
fn environment_is_taken_from_the_last_tag() {
    let event = run(
        Event {
            tags: Annotated::new(Tags(vec![
                tag(text("environment"), text("first")),
                tag(text("a"), text("b")),
                tag(text("environment"), text("second")),
                tag(text("environment"), Annotated::empty()),
                Annotated::empty(),
            ])),
            ..Default::default()
        },
        &plain(),
    );
    assert_eq!(event.environment, text("second"));
    assert_eq!(
        event.tags,
        Annotated::new(Tags(vec![
            tag(text("a"), text("b")),
            tag(text("environment"), Annotated::empty()),
            Annotated::empty(),
        ]))
    );
}

#[test]
fn own_environment_is_kept() {
    let event = run(
        Event {
            environment: text("staging"),
            tags: Annotated::new(Tags(vec![tag(text("environment"), text("prod"))])),
            ..Default::default()
        },
        &plain(),
    );
    assert_eq!(event.environment, text("staging"));
    assert_eq!(
        event.tags,
        Annotated::new(Tags(vec![tag(text("environment"), text("prod"))]))
    );
}

#[test]
fn event_type_is_inferred() {
    let report = || Annotated::new(Object::new());
    let ty = |event: Event| run(event, &plain()).ty.0.unwrap();
    assert_eq!(
        ty(Event {
            exceptions: listed(vec![Annotated::empty()]),
            csp: report(),
            ..Default::default()
        }),
        EventType::Error
    );
    assert_eq!(
        ty(Event {
            exceptions: listed(vec![]),
            csp: report(),
            hpkp: report(),
            ..Default::default()
        }),
        EventType::Csp
    );
    assert_eq!(
        ty(Event {
            hpkp: report(),
            expectct: report(),
            ..Default::default()
        }),
        EventType::Hpkp
    );
    assert_eq!(
        ty(Event {
            expectct: report(),
            expectstaple: report(),
            ..Default::default()
        }),
        EventType::ExpectCT
    );
    assert_eq!(
        ty(Event {
            expectstaple: report(),
            ty: Annotated::new(EventType::Error),
            ..Default::default()
        }),
        EventType::ExpectStaple
    );
}

#[test]
fn stacktrace_moves_to_the_only_exception() {
    let event = run(
        Event {
            exceptions: listed(vec![Annotated::new(Exception {
                ty: text("A"),
                stacktrace: trace("http://foo.com/own.js"),
                ..Default::default()
            })]),
            stacktrace: trace("http://foo.com/event.js"),
            ..Default::default()
        },
        &plain(),
    );
    assert_eq!(event.stacktrace, Annotated::empty());
    let exception = exceptions_of(&event)[0].0.as_ref().unwrap();
    assert_eq!(filename_in(&exception.stacktrace), Some("/event.js".to_string()));
}

#[test]
fn stacktrace_stays_beside_several_exceptions() {
    let exception = |path: &str| {
        Annotated::new(Exception {
            ty: text("A"),
            stacktrace: trace(path),
            ..Default::default()
        })
    };
    let event = run(
        Event {
            exceptions: listed(vec![
                exception("http://foo.com/1.js"),
                exception("http://foo.com/2.js"),
            ]),
            stacktrace: trace("http://foo.com/event.js"),
            ..Default::default()
        },
        &plain(),
    );
    assert_eq!(filename_in(&event.stacktrace), Some("/event.js".to_string()));
    let list = exceptions_of(&event);
    assert_eq!(list.len(), 2);
    assert_eq!(
        filename_in(&list[1].0.as_ref().unwrap().stacktrace),
        Some("/2.js".to_string())
    );
}

#[test]
fn stacktrace_stays_beside_a_missing_exception() {
    let event = run(
        Event {
            exceptions: listed(vec![Annotated::empty()]),
            stacktrace: trace("http://foo.com/event.js"),
            ..Default::default()
        },
        &plain(),
    );
    assert_eq!(filename_in(&event.stacktrace), Some("/event.js".to_string()));
    assert_eq!(exceptions_of(&event), &vec![Annotated::empty()]);
}

fn crash(number: i64, mach: i64) -> Annotated<Values<Exception>> {
    listed(vec![Annotated::new(Exception {
        ty: text("Crash"),
        mechanism: Annotated::new(Mechanism {
            meta: Annotated::new(MechanismMeta {
                signal: Annotated::new(PosixSignal {
                    number: Annotated::new(number),
                    ..Default::default()
                }),
                mach_exception: Annotated::new(MachException {
                    ty: Annotated::new(mach),
                    ..Default::default()
                }),
                ..Default::default()
            }),
            ..Default::default()
        }),
        ..Default::default()
    })])
}

fn names_in(event: &Event) -> (Option<String>, Option<String>) {
    let exception = exceptions_of(event)[0].0.as_ref().unwrap();
    let meta = exception.mechanism.0.as_ref().unwrap().meta.0.as_ref().unwrap();
    (
        meta.signal.0.as_ref().unwrap().name.0.clone(),
        meta.mach_exception.0.as_ref().unwrap().name.0.clone(),
    )
}

#[test]
fn mechanism_names_depend_on_the_system() {
    let on = |name: &str| {
        run(
            Event {
                exceptions: crash(10, 1),
                contexts: Annotated::new(Contexts {
                    os: Annotated::new(OsContext {
                        name: text(name),
                        ..Default::default()
                    }),
                    ..Default::default()
                }),
                ..Default::default()
            },
            &plain(),
        )
    };
    let bad_access = Some("EXC_BAD_ACCESS".to_string());
    assert_eq!(names_in(&on("linux")), (Some("SIGUSR1".to_string()), bad_access.clone()));
    assert_eq!(names_in(&on("ios")), (Some("SIGBUS".to_string()), bad_access.clone()));
    assert_eq!(names_in(&on("windows")), (None, bad_access.clone()));
    assert_eq!(names_in(&on("plan9")), (None, bad_access));
}

#[test]
fn system_sdk_comes_before_the_context() {
    let event = run(
        Event {
            exceptions: crash(30, 99),
            debug_meta: Annotated::new(DebugMeta {
                system_sdk: Annotated::new(SystemSdkInfo {
                    sdk_name: text("macos"),
                    ..Default::default()
                }),
                ..Default::default()
            }),
            contexts: Annotated::new(Contexts {
                os: Annotated::new(OsContext {
                    name: text("linux"),
                    ..Default::default()
                }),
                ..Default::default()
            }),
            ..Default::default()
        },
        &plain(),
    );
    assert_eq!(names_in(&event), (Some("SIGUSR1".to_string()), None));
}

#[test]
fn user_gets_the_address_of_the_request() {
    let event = run(
        Event {
            request: request_from(Value::String("1.2.3.4".to_string())),
            ..Default::default()
        },
        &with_client("10.0.0.1", true),
    );
    assert_eq!(event.user.0.unwrap().ip_address, address("1.2.3.4"));
}

#[test]
fn user_keeps_an_address() {
    let event = run(
        Event {
            request: request_from(Value::String("1.2.3.4".to_string())),
            user: Annotated::new(User {
                ip_address: address("5.6.7.8"),
                ..Default::default()
            }),
            ..Default::default()
        },
        &with_client("10.0.0.1", true),
    );
    assert_eq!(event.user.0.unwrap().ip_address, address("5.6.7.8"));
}

#[test]
fn client_address_is_used_for_user_machines_only() {
    let user = |platform: &str, is_public: bool| {
        run(
            Event {
                platform: text(platform),
                request: request_from(Value::Null),
                ..Default::default()
            },
            &with_client("10.0.0.1", is_public),
        )
        .user
    };
    for platform in ["javascript", "cocoa", "objc"] {
        assert_eq!(user(platform, false).0.unwrap().ip_address, address("10.0.0.1"));
    }
    assert_eq!(user("python", false), Annotated::empty());
    assert_eq!(user("python", true).0.unwrap().ip_address, address("10.0.0.1"));
}

#[test]
fn open_addresses_are_filled_in() {
    let event = || Event {
        request: request_from(Value::String("{{auto}}".to_string())),
        user: Annotated::new(User {
            ip_address: address("{{auto}}"),
            ..Default::default()
        }),
        ..Default::default()
    };
    let filled = run(event(), &with_client("10.0.0.1", false));
    assert_eq!(
        remote_of(&filled.request),
        &Annotated::new(Value::String("10.0.0.1".to_string()))
    );
    assert_eq!(filled.user.0.unwrap().ip_address, address("10.0.0.1"));

    let open = run(event(), &plain());
    assert_eq!(
        remote_of(&open.request),
        &Annotated::new(Value::String("{{auto}}".to_string()))
    );
    assert_eq!(open.user.0.unwrap().ip_address, address("{{auto}}"));
}

#[test]
fn closed_addresses_are_kept() {
    let event = run(
        Event {
            request: request_from(Value::Bool(true)),
            user: Annotated::new(User::default()),
            ..Default::default()
        },
        &with_client("10.0.0.1", false),
    );
    assert_eq!(remote_of(&event.request), &Annotated::new(Value::Bool(true)));
    assert_eq!(event.user.0.unwrap().ip_address, Annotated::empty());
}

#[test]
fn sdk_is_kept_and_never_guessed() {
    let processor = with_client("10.0.0.1", true);
    assert_eq!(
        process(Annotated::<ClientSdkInfo>::empty(), &processor),
        Annotated::empty()
    );
    let info = || {
        Annotated::new(ClientSdkInfo {
            name: text("raven"),
            ..Default::default()
        })
    };
    assert_eq!(process(info(), &processor), info());
}

#[test]
fn breadcrumbs_get_defaults() {
    let breadcrumbs = Annotated::new(Values {
        values: Annotated::new(vec![
            Annotated::new(Breadcrumb::default()),
            Annotated::new(Breadcrumb {
                ty: text("http"),
                level: Annotated::new(Level::Warning),
                ..Default::default()
            }),
            Annotated::empty(),
        ]),
        ..Default::default()
    });
    let event = run(
        Event {
            breadcrumbs,
            ..Default::default()
        },
        &plain(),
    );
    let list = event.breadcrumbs.0.unwrap().values.0.unwrap();
    let first = list[0].0.as_ref().unwrap();
    assert_eq!(first.ty, text("default"));
    assert_eq!(first.level, Annotated::new(Level::Info));
    let second = list[1].0.as_ref().unwrap();
    assert_eq!(second.ty, text("http"));
    assert_eq!(second.level, Annotated::new(Level::Warning));
    assert_eq!(list[2], Annotated::empty());
}

#[test]
fn missing_event_stays_missing() {
    let mut meta = Meta::default();
    meta.add_error("gone", Some(Value::U64(1)));
    let event = process(Annotated::<Event>(None, meta), &plain());
    assert_eq!(event.0, None);
    assert_eq!(event.1.iter_errors(), ["gone"]);
    assert_eq!(event.1.original_value, Some(Value::U64(1)));
}

#[test]
fn culprit_is_cut_to_its_limit() {
    let culprit = |length: usize| {
        run(
            Event {
                culprit: text(&"x".repeat(length)),
                ..Default::default()
            },
            &plain(),
        )
        .culprit
    };
    assert_eq!(culprit(276), text(&"x".repeat(276)));

    let Annotated(value, meta) = culprit(277);
    assert_eq!(value, Some("x".repeat(253) + "..."));
    assert_eq!(meta.original_length, Some(277));
    assert_eq!(meta.remarks.len(), 1);
    assert_eq!(meta.remarks[0].ty, RemarkType::Substituted);
    assert_eq!(meta.remarks[0].rule_id, "!limit");
    assert_eq!(meta.remarks[0].range, (253, 256));
}

#[test]
fn texts_without_a_limit_are_kept() {
    let long = "x".repeat(10_000);
    assert_eq!(
        plain().process_string(text(&long), ProcessingState::root()),
        text(&long)
    );
}
