use desktop_shell::commands::{
    desktop_capabilities, health_check, AUTOUPDATE, CLIPBOARD, DEEP_LINKING, FILESYSTEM,
    HEALTH_OK, NOTIFICATIONS, WINDOW_CONTROLS,
};
use desktop_shell::dispatch::{
    dispatch, dispatch_each, Command, DispatchError, Reply, DESKTOP_CAPABILITIES_NAME,
    HEALTH_CHECK_NAME,
};

const EXPECTED: [&str; 6] = [
    "filesystem",
    "notifications",
    "clipboard",
    "deep-linking",
    "autoupdate",
    "window-controls",
];

fn text_of(r: &Result<Reply, DispatchError>) -> String {
    match r {
        Ok(Reply::Text(s)) => s.clone(),
        other => panic!("expected a text reply, got {:?}", other),
    }
}

fn tokens_of(r: &Result<Reply, DispatchError>) -> Vec<&'static str> {
    match r {
        Ok(Reply::Tokens(v)) => v.clone(),
        other => panic!("expected a token reply, got {:?}", other),
    }
}

#[test]
fn health_check_answers_ok() {
    assert_eq!(health_check(), "ok");
    assert_eq!(HEALTH_OK, "ok");
}

#[test]
fn health_check_is_the_same_every_time() {
    for _ in 0..5 {
        assert_eq!(health_check(), "ok");
    }
}

#[test]
fn capabilities_are_the_six_tokens_in_order() {
    let caps = desktop_capabilities();
    assert_eq!(caps.len(), 6);
    assert_eq!(caps, EXPECTED.to_vec());
}

#[test]
fn capabilities_order_matters() {
    let mut reordered = EXPECTED.to_vec();
    reordered.swap(0, 5);
    assert_ne!(desktop_capabilities(), reordered);
}

#[test]
fn capability_constants_hold_the_tokens() {
    assert_eq!(
        vec![FILESYSTEM, NOTIFICATIONS, CLIPBOARD, DEEP_LINKING, AUTOUPDATE, WINDOW_CONTROLS],
        EXPECTED.to_vec()
    );
}

#[test]
fn capabilities_are_fresh_on_every_call() {
    let mut first = desktop_capabilities();
    first.clear();
    assert_eq!(desktop_capabilities(), EXPECTED.to_vec());
}

#[test]
fn registered_names_are_exact() {
    assert_eq!(HEALTH_CHECK_NAME, "health_check");
    assert_eq!(DESKTOP_CAPABILITIES_NAME, "desktop_capabilities");
    assert_eq!(Command::from_name("health_check"), Some(Command::HealthCheck));
    assert_eq!(
        Command::from_name("desktop_capabilities"),
        Some(Command::DesktopCapabilities)
    );
}

#[test]
fn command_names_round_trip() {
    for c in [Command::HealthCheck, Command::DesktopCapabilities] {
        assert_eq!(Command::from_name(c.name()), Some(c));
    }
}

#[test]
fn unregistered_names_are_refused_by_dispatch() {
    for name in [
        "",
        "Health_Check",
        "health_check ",
        " health_check",
        "healthcheck",
        "desktop-capabilities",
        "desktop_capabilities2",
        "run",
    ] {
        assert_eq!(Command::from_name(name), None);
        assert!(matches!(dispatch(name), Err(DispatchError::UnknownCommand)));
    }
}

#[test]
fn invoke_runs_each_operation() {
    match Command::HealthCheck.invoke() {
        Reply::Text(s) => assert_eq!(s, "ok"),
        other => panic!("unexpected {:?}", other),
    }
    match Command::DesktopCapabilities.invoke() {
        Reply::Tokens(v) => assert_eq!(v, EXPECTED.to_vec()),
        other => panic!("unexpected {:?}", other),
    }
}

#[test]
fn dispatch_end_to_end() {
    assert_eq!(text_of(&dispatch("health_check")), "ok");
    assert_eq!(tokens_of(&dispatch("desktop_capabilities")), EXPECTED.to_vec());
}

#[test]
fn interleaved_invocations_give_identical_results() {
    let names = vec![
        "desktop_capabilities",
        "health_check",
        "nope",
        "health_check",
        "desktop_capabilities",
        "desktop_capabilities",
    ];
    let out = dispatch_each(&names);
    assert_eq!(out.len(), names.len());
    assert_eq!(text_of(&out[1]), "ok");
    assert_eq!(text_of(&out[3]), "ok");
    assert!(matches!(out[2], Err(DispatchError::UnknownCommand)));
    for i in [0usize, 4, 5] {
        assert_eq!(tokens_of(&out[i]), EXPECTED.to_vec());
    }
}

#[test]
fn dispatch_each_of_nothing_is_empty() {
    let names: Vec<&str> = Vec::new();
    assert!(dispatch_each(&names).is_empty());
}
