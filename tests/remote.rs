use admin_daemon::remote::{
    action_path, build_request, classify, classify_answer, members_fit, response_fits, ActionKind,
    Exchange, HttpMethod, MemberKind, Outcome,
};
use admin_daemon::scheduler::{Command, Event, Phase, Scheduler};

fn answered(status: u16, body: &str) -> Exchange {
    Exchange::Answered { status, body: Some(String::from(body)) }
}

#[test]
fn requests_for_each_action() {
    let s = Scheduler::start(Some("dev".into()), Some("secret".into()), Some("/d".into()), 0)
        .ok()
        .unwrap();
    let d = s.request_for(ActionKind::DeleteUserData);
    assert_eq!(d.method, HttpMethod::Delete);
    assert_eq!(d.url, "http://localhost:3000/admin/user-idv-data");
    assert_eq!(d.key_header, "x-api-key");
    assert_eq!(d.api_key, "secret");
    let t = s.request_for(ActionKind::TransferFunds);
    assert_eq!(t.method, HttpMethod::Post);
    assert_eq!(t.url, "http://localhost:3000/admin/transfer-funds");

    let p = Scheduler::start(Some("prod".into()), Some("k".into()), Some("/d".into()), 0)
        .ok()
        .unwrap();
    assert_eq!(
        p.request_for(ActionKind::TransferFunds).url,
        "https://id-server.holonym.io/admin/transfer-funds"
    );
}

#[test]
fn build_request_appends_path() {
    let r = build_request(ActionKind::DeleteUserData, "http://h", "k");
    assert_eq!(r.url, "http://h/admin/user-idv-data");
    assert_eq!(action_path(ActionKind::TransferFunds), "/admin/transfer-funds");
}

#[test]
fn deletion_bodies() {
    let k = ActionKind::DeleteUserData;
    assert!(response_fits(k, r#"{"message":"ok"}"#));
    assert!(response_fits(k, r#"{"message":null,"error":"boom"}"#));
    assert!(response_fits(k, "{}"));
    assert!(response_fits(k, r#"{"other": [1, 2]}"#));
    assert!(!response_fits(k, r#"{"message": 5}"#));
    assert!(!response_fits(k, r#"{"error": {"a": 1}}"#));
    assert!(!response_fits(k, "[1, 2]"));
    assert!(!response_fits(k, "not json"));
    assert!(!response_fits(k, ""));
}

#[test]
fn transfer_bodies() {
    let k = ActionKind::TransferFunds;
    assert!(response_fits(k, r#"{"optimism":{"tx":"0x1"},"fantom":null,"avalanche":3}"#));
    assert!(response_fits(k, r#"{"error":"insufficient"}"#));
    assert!(response_fits(k, r#"{"message": 5}"#));
    assert!(!response_fits(k, r#"{"error": false}"#));
    assert!(!response_fits(k, "\"text\""));
}

#[test]
fn member_shapes() {
    assert!(members_fit(ActionKind::DeleteUserData, MemberKind::Text, MemberKind::Absent));
    assert!(!members_fit(ActionKind::DeleteUserData, MemberKind::OtherValue, MemberKind::Null));
    assert!(members_fit(ActionKind::TransferFunds, MemberKind::OtherValue, MemberKind::Null));
    assert!(!members_fit(ActionKind::TransferFunds, MemberKind::Absent, MemberKind::NotObject));
    assert!(!members_fit(ActionKind::TransferFunds, MemberKind::Absent, MemberKind::Unparsable));
}

#[test]
fn success_keeps_body() {
    match classify(ActionKind::DeleteUserData, answered(200, r#"{"message":"done"}"#)) {
        Outcome::Success { body } => assert_eq!(body, r#"{"message":"done"}"#),
        other => panic!("unexpected {:?}", other),
    }
}

#[test]
fn non_ok_status_is_remote_error() {
    match classify(ActionKind::TransferFunds, answered(500, r#"{"error":"down"}"#)) {
        Outcome::RemoteError { status, body } => {
            assert_eq!(status, 500);
            assert_eq!(body, r#"{"error":"down"}"#);
        }
        other => panic!("unexpected {:?}", other),
    }
}

#[test]
fn malformed_body_is_parse_error() {
    let o = classify(ActionKind::DeleteUserData, answered(200, "<html>"));
    assert!(matches!(o, Outcome::ParseError { status: 200 }));
    let o = classify(ActionKind::TransferFunds, Exchange::Answered { status: 200, body: None });
    assert!(matches!(o, Outcome::ParseError { status: 200 }));
}

#[test]
fn transport_failure_is_kept_as_outcome() {
    let o = classify(
        ActionKind::DeleteUserData,
        Exchange::TransportFailed { cause: String::from("connection refused") },
    );
    match o {
        Outcome::TransportError { cause } => assert_eq!(cause, "connection refused"),
        other => panic!("unexpected {:?}", other),
    }
}

#[test]
fn answer_classification_table() {
    assert!(matches!(classify_answer(200, Some("b".into()), true), Outcome::Success { .. }));
    assert!(matches!(
        classify_answer(404, Some("b".into()), true),
        Outcome::RemoteError { status: 404, .. }
    ));
    assert!(matches!(classify_answer(404, Some("b".into()), false), Outcome::ParseError { status: 404 }));
    assert!(matches!(classify_answer(200, None, true), Outcome::ParseError { status: 200 }));
}

#[test]
fn failed_calls_do_not_stop_next_tick() {
    let s = Scheduler::start(Some("dev".into()), Some("k".into()), Some("/d".into()), 0)
        .ok()
        .unwrap();
    let failures = [
        classify(ActionKind::DeleteUserData, Exchange::TransportFailed { cause: "down".into() }),
        classify(ActionKind::TransferFunds, answered(503, r#"{"error":"busy"}"#)),
        classify(ActionKind::DeleteUserData, answered(200, "{broken")),
    ];
    assert!(matches!(failures[0], Outcome::TransportError { .. }));
    assert!(matches!(failures[1], Outcome::RemoteError { status: 503, .. }));
    assert!(matches!(failures[2], Outcome::ParseError { .. }));
    let mut phase = Phase::AwaitingTick;
    let mut seen = Vec::new();
    for event in [
        Event::Tick,
        Event::ActionFinished,
        Event::ActionFinished,
        Event::HourRead { current_hours: Some(1) },
        Event::Tick,
    ] {
        let (p, c) = s.step(phase, event);
        phase = p;
        seen.push(c);
    }
    assert_eq!(seen[1], Command::Invoke { kind: ActionKind::TransferFunds });
    assert_eq!(seen[4], Command::Invoke { kind: ActionKind::DeleteUserData });
}
