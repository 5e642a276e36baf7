use btinfo::dispatch::{handle_events, plan_dispatch, push_actions, send_signal, Action};
use btinfo::matcher::{matches_config_rule, matching_rules};
use btinfo::message::{
    join_fields, parse_signal, BusMessage, MessageKind, MessageShapeError, NormalizedSignal,
};
use btinfo::router::{startup, step, BusEvent, FatalError, Outcome, Router, RouterState, Startup};
use btinfo::rule::{ConfigError, EventHandler, InternalEventHandler, RuleField, RuleSet};

fn blank() -> EventHandler {
    EventHandler {
        path: None,
        path_not: None,
        member: None,
        member_not: None,
        data: None,
        data_not: None,
        exec_command: None,
        signal: None,
        signal_process: None,
    }
}

fn on_path(pattern: &str, command: &str) -> EventHandler {
    EventHandler {
        path: Some(pattern.to_string()),
        exec_command: Some(command.to_string()),
        ..blank()
    }
}

fn compiled(name: &str, decl: EventHandler) -> InternalEventHandler {
    InternalEventHandler::compile(name.to_string(), decl).expect("rule compiles")
}

fn loaded(decls: Vec<(&str, EventHandler)>) -> RuleSet {
    RuleSet::load(decls.into_iter().map(|(n, d)| (n.to_string(), d)).collect())
        .expect("rules load")
}

fn load_error(decls: Vec<(&str, EventHandler)>) -> ConfigError {
    match RuleSet::load(decls.into_iter().map(|(n, d)| (n.to_string(), d)).collect()) {
        Ok(_) => panic!("rules loaded"),
        Err(e) => e,
    }
}

fn signal(path: &str, member: &str, data: &str) -> NormalizedSignal {
    NormalizedSignal { path: path.to_string(), member: member.to_string(), data: data.to_string() }
}

fn message(kind: MessageKind, path: Option<&str>, member: Option<&str>) -> BusMessage {
    BusMessage {
        kind,
        path: path.map(|p| p.to_string()),
        member: member.map(|m| m.to_string()),
        body: None,
    }
}

fn commands(actions: &[Action]) -> Vec<String> {
    actions
        .iter()
        .map(|a| match a {
            Action::Exec { rule, command } => format!("{}:exec:{}", rule, command),
            Action::Notify { rule, process, signal } => {
                format!("{}:notify:{}:{}", rule, process, signal)
            }
        })
        .collect()
}

#[test]
fn rule_without_patterns_matches_every_signal() {
    let rule = compiled("any", blank());
    assert!(matches_config_rule(&signal("/a/b", "Changed", ""), &rule));
    assert!(matches_config_rule(&signal("", "", "{\n  \"x\": 1\n}"), &rule));
}

#[test]
fn negation_flags_without_patterns_change_nothing() {
    let rule = compiled(
        "any",
        EventHandler {
            path_not: Some(true),
            member_not: Some(true),
            data_not: Some(true),
            ..blank()
        },
    );
    assert!(matches_config_rule(&signal("/a/b", "Changed", "1"), &rule));
}

#[test]
fn path_negation_inverts_the_path_condition() {
    let plain = compiled("p", EventHandler { path: Some("^/org/bluez".to_string()), ..blank() });
    let negated = compiled(
        "n",
        EventHandler { path: Some("^/org/bluez".to_string()), path_not: Some(true), ..blank() },
    );
    let explicit = compiled(
        "e",
        EventHandler { path: Some("^/org/bluez".to_string()), path_not: Some(false), ..blank() },
    );
    let inside = signal("/org/bluez/hci0", "PropertiesChanged", "");
    let outside = signal("/org/freedesktop/DBus", "NameAcquired", "");
    assert!(matches_config_rule(&inside, &plain));
    assert!(!matches_config_rule(&inside, &negated));
    assert!(matches_config_rule(&inside, &explicit));
    assert!(!matches_config_rule(&outside, &plain));
    assert!(matches_config_rule(&outside, &negated));
    assert!(!matches_config_rule(&outside, &explicit));
}

#[test]
fn member_and_data_negation_invert_their_own_condition() {
    let member = compiled(
        "m",
        EventHandler { member: Some("Changed$".to_string()), member_not: Some(true), ..blank() },
    );
    let data = compiled(
        "d",
        EventHandler { data: Some("Connected".to_string()), data_not: Some(true), ..blank() },
    );
    assert!(!matches_config_rule(&signal("/p", "PropertiesChanged", "Connected"), &member));
    assert!(matches_config_rule(&signal("/p", "NameLost", "Connected"), &member));
    assert!(!matches_config_rule(&signal("/p", "NameLost", "\"Connected\""), &data));
    assert!(matches_config_rule(&signal("/p", "NameLost", "\"Paired\""), &data));
}

#[test]
fn all_three_conditions_must_hold() {
    let rule = compiled(
        "all",
        EventHandler {
            path: Some("bluez".to_string()),
            member: Some("^PropertiesChanged$".to_string()),
            data: Some("Connected".to_string()),
            ..blank()
        },
    );
    assert!(matches_config_rule(&signal("/org/bluez", "PropertiesChanged", "Connected"), &rule));
    assert!(!matches_config_rule(&signal("/org/other", "PropertiesChanged", "Connected"), &rule));
    assert!(!matches_config_rule(&signal("/org/bluez", "Changed", "Connected"), &rule));
    assert!(!matches_config_rule(&signal("/org/bluez", "PropertiesChanged", "Paired"), &rule));
}

#[test]
fn pattern_is_searched_not_anchored() {
    let rule = compiled("r", EventHandler { path: Some("hci[0-9]+".to_string()), ..blank() });
    assert!(matches_config_rule(&signal("/org/bluez/hci0/dev", "M", ""), &rule));
    assert!(!matches_config_rule(&signal("hci[0-9]+", "M", ""), &rule));
}

#[test]
fn non_signal_messages_owe_nothing() {
    let rules = loaded(vec![("all", on_path(".*", "echo all"))]);
    for kind in [MessageKind::MethodCall, MessageKind::MethodReturn, MessageKind::Error] {
        let with_header = message(kind, Some("/org/bluez"), Some("Get"));
        assert!(handle_events(&rules, &with_header).expect("no error").is_empty());
        let without_header = message(kind, None, None);
        assert!(handle_events(&rules, &without_header).expect("no error").is_empty());
        assert!(parse_signal(&without_header).expect("no error").is_none());
        let (state, outcome) =
            step(RouterState::Listening, &rules, &BusEvent::Message(without_header));
        assert_eq!(state, RouterState::Listening);
        assert!(matches!(outcome, Outcome::Dispatch(ref a) if a.is_empty()));
    }
}

#[test]
fn both_rules_fire_in_declaration_order() {
    let rules = loaded(vec![
        ("R1", on_path("/org/bluez/.*", "echo A")),
        ("R2", on_path(".*", "echo B")),
    ]);
    let msg = message(MessageKind::Signal, Some("/org/bluez/hci0/dev_00"), Some("Changed"));
    let plan = handle_events(&rules, &msg).expect("well shaped");
    assert_eq!(commands(&plan), vec!["R1:exec:echo A", "R2:exec:echo B"]);
    let sig = signal("/org/bluez/hci0/dev_00", "Changed", "");
    assert_eq!(matching_rules(&rules, &sig), vec![0, 1]);
}

#[test]
fn reversed_declaration_reverses_the_actions() {
    let rules = loaded(vec![
        ("R2", on_path(".*", "echo B")),
        ("R1", on_path("/org/bluez/.*", "echo A")),
    ]);
    let sig = signal("/org/bluez/hci0/dev_00", "Changed", "");
    assert_eq!(commands(&plan_dispatch(&rules, &sig)), vec!["R2:exec:echo B", "R1:exec:echo A"]);
    let other = signal("/org/freedesktop", "Changed", "");
    assert_eq!(commands(&plan_dispatch(&rules, &other)), vec!["R2:exec:echo B"]);
    assert_eq!(matching_rules(&rules, &other), vec![0]);
}

#[test]
fn notification_comes_before_command() {
    let decl = EventHandler {
        exec_command: Some("notify-send hi".to_string()),
        signal: Some(13),
        signal_process: Some("waybar".to_string()),
        ..blank()
    };
    let rule = compiled("bar", decl);
    let mut plan = Vec::new();
    push_actions(&rule, &mut plan);
    assert_eq!(commands(&plan), vec!["bar:notify:waybar:13", "bar:exec:notify-send hi"]);
    push_actions(&compiled("idle", blank()), &mut plan);
    assert_eq!(plan.len(), 2);
    let sent = send_signal(&rule, 7).expect("target named");
    assert_eq!(commands(&[sent]), vec!["bar:notify:waybar:7"]);
}

#[test]
fn send_signal_without_target_owes_nothing() {
    let rule = InternalEventHandler {
        name: "loose".to_string(),
        path: None,
        path_not: None,
        member: None,
        member_not: None,
        data: None,
        data_not: None,
        exec_command: None,
        signal: Some(3),
        signal_process: None,
    };
    assert!(send_signal(&rule, 3).is_none());
    let mut plan = Vec::new();
    push_actions(&rule, &mut plan);
    assert!(plan.is_empty());
}

#[test]
fn undecodable_body_gives_empty_data() {
    let msg = message(MessageKind::Signal, Some("/p"), Some("M"));
    let sig = parse_signal(&msg).expect("well shaped").expect("a signal");
    assert_eq!(sig.data, "");
    assert_eq!(sig.path, "/p");
    assert_eq!(sig.member, "M");
    let needs_text = compiled("t", EventHandler { data: Some("Connected".to_string()), ..blank() });
    let accepts_empty = compiled("e", EventHandler { data: Some("^$".to_string()), ..blank() });
    let negated = compiled(
        "n",
        EventHandler { data: Some("Connected".to_string()), data_not: Some(true), ..blank() },
    );
    assert!(!matches_config_rule(&sig, &needs_text));
    assert!(matches_config_rule(&sig, &accepts_empty));
    assert!(matches_config_rule(&sig, &negated));
}

#[test]
fn body_fields_are_joined_with_comma_and_line_feed() {
    assert_eq!(join_fields(&vec![]), "");
    assert_eq!(join_fields(&vec!["1".to_string()]), "1");
    assert_eq!(
        join_fields(&vec!["\"org.bluez.Device1\"".to_string(), "{\n  \"a\": 1\n}".to_string()]),
        "\"org.bluez.Device1\",\n{\n  \"a\": 1\n}"
    );
    assert_eq!(
        join_fields(&vec!["a".to_string(), "".to_string(), "c".to_string()]),
        "a,\n,\nc"
    );
    let msg = BusMessage {
        kind: MessageKind::Signal,
        path: Some("/p".to_string()),
        member: Some("M".to_string()),
        body: Some(vec!["1".to_string(), "2".to_string()]),
    };
    assert_eq!(parse_signal(&msg).expect("well shaped").expect("a signal").data, "1,\n2");
    let empty_body = BusMessage { body: Some(vec![]), ..message(MessageKind::Signal, Some("/p"), Some("M")) };
    assert_eq!(parse_signal(&empty_body).expect("well shaped").expect("a signal").data, "");
}

#[test]
fn signal_without_path_or_member_is_an_error() {
    let rules = loaded(vec![]);
    let no_path = message(MessageKind::Signal, None, Some("M"));
    assert_eq!(parse_signal(&no_path).unwrap_err(), MessageShapeError::MissingPath);
    let neither = message(MessageKind::Signal, None, None);
    assert_eq!(parse_signal(&neither).unwrap_err(), MessageShapeError::MissingPath);
    let no_member = message(MessageKind::Signal, Some("/p"), None);
    assert_eq!(parse_signal(&no_member).unwrap_err(), MessageShapeError::MissingMember);
    assert_eq!(handle_events(&rules, &no_member).unwrap_err(), MessageShapeError::MissingMember);
    let (state, outcome) = step(RouterState::Listening, &rules, &BusEvent::Message(no_member));
    assert_eq!(state, RouterState::Terminated);
    assert!(matches!(
        outcome,
        Outcome::Fatal(FatalError::MessageShape(MessageShapeError::MissingMember))
    ));
}

#[test]
fn malformed_pattern_is_a_config_error() {
    let e = load_error(vec![
        ("good", on_path(".*", "true")),
        ("bad", EventHandler { path: Some("(".to_string()), ..blank() }),
    ]);
    assert_eq!(e.rule, "bad");
    assert_eq!(e.field, RuleField::Path);
    let e = load_error(vec![("m", EventHandler { member: Some("[a".to_string()), ..blank() })]);
    assert_eq!((e.rule.as_str(), e.field), ("m", RuleField::Member));
    let e = load_error(vec![("d", EventHandler { data: Some("a{2,1}".to_string()), ..blank() })]);
    assert_eq!((e.rule.as_str(), e.field), ("d", RuleField::Data));
}

#[test]
fn signal_without_target_is_a_config_error() {
    let e = load_error(vec![("s", EventHandler { signal: Some(4), ..blank() })]);
    assert_eq!((e.rule.as_str(), e.field), ("s", RuleField::SignalProcess));
    let ok = loaded(vec![("t", EventHandler { signal_process: Some("waybar".to_string()), ..blank() })]);
    assert_eq!(ok.len(), 1);
    assert!(plan_dispatch(&ok, &signal("/p", "M", "")).is_empty());
}

#[test]
fn first_fault_is_reported() {
    let e = load_error(vec![
        ("a", EventHandler { signal: Some(4), member: Some("(".to_string()), ..blank() }),
        ("b", EventHandler { path: Some("(".to_string()), ..blank() }),
    ]);
    assert_eq!((e.rule.as_str(), e.field), ("a", RuleField::Member));
    let e = match InternalEventHandler::compile(
        "c".to_string(),
        EventHandler {
            path: Some("(".to_string()),
            data: Some("(".to_string()),
            ..blank()
        },
    ) {
        Ok(_) => panic!("compiled"),
        Err(e) => e,
    };
    assert_eq!((e.rule.as_str(), e.field), ("c", RuleField::Path));
}

#[test]
fn loading_keeps_names_fields_and_order() {
    let rules = loaded(vec![
        ("z", EventHandler { path: Some("^/z".to_string()), path_not: Some(true), ..blank() }),
        (
            "a",
            EventHandler {
                signal: Some(9),
                signal_process: Some("bar".to_string()),
                exec_command: Some("true".to_string()),
                ..blank()
            },
        ),
    ]);
    assert_eq!(rules.len(), 2);
    assert_eq!(rules.rules[0].name, "z");
    assert_eq!(rules.rules[0].path.as_ref().map(|r| r.as_str()), Some("^/z"));
    assert_eq!(rules.rules[0].path_not, Some(true));
    assert!(rules.rules[0].member.is_none() && rules.rules[0].data.is_none());
    assert_eq!(rules.rules[1].name, "a");
    assert_eq!(rules.rules[1].signal, Some(9));
    assert_eq!(rules.rules[1].signal_process.as_deref(), Some("bar"));
    assert_eq!(rules.rules[1].exec_command.as_deref(), Some("true"));
    assert_eq!(loaded(vec![]).len(), 0);
}

#[test]
fn router_goes_from_idle_to_listening_to_terminated() {
    let rules = loaded(vec![("all", on_path(".*", "echo x"))]);
    let msg = || BusEvent::Message(message(MessageKind::Signal, Some("/p"), Some("M")));

    let (state, outcome) = step(RouterState::Idle, &rules, &msg());
    assert_eq!(state, RouterState::Idle);
    assert!(matches!(outcome, Outcome::Dispatch(ref a) if a.is_empty()));

    let (state, outcome) = step(RouterState::Idle, &rules, &BusEvent::Subscribed);
    assert_eq!(state, RouterState::Listening);
    assert!(matches!(outcome, Outcome::Dispatch(ref a) if a.is_empty()));

    let (state, outcome) = step(state, &rules, &msg());
    assert_eq!(state, RouterState::Listening);
    match outcome {
        Outcome::Dispatch(plan) => assert_eq!(commands(&plan), vec!["all:exec:echo x"]),
        Outcome::Fatal(e) => panic!("fatal: {:?}", e),
    }

    let (state, outcome) = step(state, &rules, &BusEvent::Subscribed);
    assert_eq!(state, RouterState::Listening);
    assert!(matches!(outcome, Outcome::Dispatch(ref a) if a.is_empty()));

    let (ended, outcome) = step(state, &rules, &BusEvent::Closed);
    assert_eq!(ended, RouterState::Terminated);
    assert!(matches!(outcome, Outcome::Fatal(FatalError::StreamEnded)));

    let (failed, outcome) = step(state, &rules, &BusEvent::Failed);
    assert_eq!(failed, RouterState::Terminated);
    assert!(matches!(outcome, Outcome::Fatal(FatalError::StreamError)));

    let (state, outcome) = step(ended, &rules, &msg());
    assert_eq!(state, RouterState::Terminated);
    assert!(matches!(outcome, Outcome::Dispatch(ref a) if a.is_empty()));
}

#[test]
fn failed_connection_is_fatal() {
    let rules = loaded(vec![]);
    for event in [BusEvent::Failed, BusEvent::Closed] {
        let (state, outcome) = step(RouterState::Idle, &rules, &event);
        assert_eq!(state, RouterState::Terminated);
        assert!(matches!(outcome, Outcome::Fatal(FatalError::ConnectionFailed)));
    }
}

#[test]
fn empty_configuration_ends_the_program() {
    assert_eq!(startup(""), Startup::Exit);
    assert_eq!(startup(" "), Startup::Load);
    assert_eq!(startup("\n"), Startup::Load);
    assert_eq!(startup("[rule]\npath = \".*\"\n"), Startup::Load);
}

#[test]
fn router_keeps_its_rules_and_follows_the_events() {
    let mut router = Router::new(loaded(vec![
        ("R1", on_path("/org/bluez/.*", "echo A")),
        ("R2", on_path(".*", "echo B")),
    ]));
    assert_eq!(router.state(), RouterState::Idle);
    assert_eq!(router.rules().len(), 2);

    assert!(matches!(router.handle(&BusEvent::Subscribed), Outcome::Dispatch(ref a) if a.is_empty()));
    assert_eq!(router.state(), RouterState::Listening);

    let call = BusEvent::Message(message(MessageKind::MethodCall, Some("/org/bluez/x"), Some("Get")));
    assert!(matches!(router.handle(&call), Outcome::Dispatch(ref a) if a.is_empty()));
    assert_eq!(router.state(), RouterState::Listening);

    let hit = BusEvent::Message(message(MessageKind::Signal, Some("/org/bluez/hci0/dev_00"), Some("M")));
    match router.handle(&hit) {
        Outcome::Dispatch(plan) => {
            assert_eq!(commands(&plan), vec!["R1:exec:echo A", "R2:exec:echo B"])
        }
        Outcome::Fatal(e) => panic!("fatal: {:?}", e),
    }
    assert_eq!(router.rules().len(), 2);
    assert_eq!(router.rules().rules[0].name, "R1");

    assert!(matches!(router.handle(&BusEvent::Closed), Outcome::Fatal(FatalError::StreamEnded)));
    assert_eq!(router.state(), RouterState::Terminated);
    assert!(matches!(router.handle(&hit), Outcome::Dispatch(ref a) if a.is_empty()));
    assert!(matches!(router.handle(&BusEvent::Subscribed), Outcome::Dispatch(ref a) if a.is_empty()));
    assert_eq!(router.state(), RouterState::Terminated);
}

#[test]
fn missing_process_does_not_stop_the_router() {
    let decl = EventHandler {
        signal: Some(5),
        signal_process: Some("no-such-process-anywhere".to_string()),
        ..blank()
    };
    let mut router = Router::new(loaded(vec![("bar", decl)]));
    router.handle(&BusEvent::Subscribed);
    let msg = || BusEvent::Message(message(MessageKind::Signal, Some("/p"), Some("M")));
    match router.handle(&msg()) {
        Outcome::Dispatch(plan) => {
            assert_eq!(commands(&plan), vec!["bar:notify:no-such-process-anywhere:5"]);
            assert_eq!(btinfo::signal::notify_decision(None, 5), btinfo::signal::Delivery::NotRunning);
        }
        Outcome::Fatal(e) => panic!("fatal: {:?}", e),
    }
    assert_eq!(router.state(), RouterState::Listening);
    assert!(matches!(router.handle(&msg()), Outcome::Dispatch(ref a) if a.len() == 1));
}

#[test]
fn config_error_message_names_rule_and_fault() {
    let e = load_error(vec![("bad", EventHandler { path: Some("(".to_string()), ..blank() })]);
    assert_eq!(e.message(), "rule 'bad': the path pattern does not compile");
    let e = ConfigError { rule: String::new(), field: RuleField::Member };
    assert_eq!(e.message(), "rule '': the member pattern does not compile");
    let e = ConfigError { rule: "d".to_string(), field: RuleField::Data };
    assert_eq!(e.message(), "rule 'd': the data pattern does not compile");
    let e = load_error(vec![("s", EventHandler { signal: Some(1), ..blank() })]);
    assert_eq!(e.message(), "rule 's': a signal is set but no process to send it to");
}

#[test]
fn fatal_error_messages() {
    assert_eq!(
        FatalError::ConnectionFailed.message(),
        "could not connect to the bus or subscribe to it"
    );
    assert_eq!(FatalError::StreamEnded.message(), "the bus closed the stream of messages");
    assert_eq!(
        FatalError::StreamError.message(),
        "the next message could not be taken from the bus"
    );
    assert_eq!(
        FatalError::MessageShape(MessageShapeError::MissingPath).message(),
        "a signal came without an object path"
    );
    assert_eq!(
        FatalError::MessageShape(MessageShapeError::MissingMember).message(),
        "a signal came without a member name"
    );
}
