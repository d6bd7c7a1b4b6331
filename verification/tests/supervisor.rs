use facts_desktop::event::{Level, LogRecord, OutputEvent};
use facts_desktop::greeting::greet;
use facts_desktop::launcher::{plan_setup, LaunchError, ProcessHandle, SetupOutcome};
use facts_desktop::relay::{relay_all, relay_event};

#[test]
fn stdout_line_yields_one_info_record() {
    let e = OutputEvent::StandardOutLine(b"ready".to_vec());
    let r = relay_event(&e);
    let rec = r.expect("a stdout line must yield a record");
    assert_eq!(rec.level, Level::Info);
    assert_eq!(rec.text, "ready");
}

#[test]
fn stderr_line_yields_one_error_record() {
    let e = OutputEvent::StandardErrLine(b"warn: low memory".to_vec());
    let r = relay_event(&e);
    let rec = r.expect("a stderr line must yield a record");
    assert_eq!(rec.level, Level::Error);
    assert_eq!(rec.text, "warn: low memory");
}

#[test]
fn terminated_and_other_yield_nothing() {
    assert!(relay_event(&OutputEvent::Terminated(0)).is_none());
    assert!(relay_event(&OutputEvent::Terminated(137)).is_none());
    assert!(relay_event(&OutputEvent::Other).is_none());
}

#[test]
fn decoding_never_fails_and_always_yields_text() {
    let payloads: Vec<Vec<u8>> = vec![
        vec![],
        b"plain ascii".to_vec(),
        vec![0x80],
        vec![0xff, 0xfe, 0xfd],
        vec![0xc3],
        vec![0xc3, 0xa9],
        vec![0xe2, 0x82],
        vec![0x00, 0xf0, 0x9f, 0x92, 0x96, 0x7f],
    ];
    for p in payloads {
        let out = relay_event(&OutputEvent::StandardOutLine(p.clone()));
        let rec = out.expect("every stdout payload must yield a record");
        assert_eq!(rec.level, Level::Info);
        let err = relay_event(&OutputEvent::StandardErrLine(p));
        let rec = err.expect("every stderr payload must yield a record");
        assert_eq!(rec.level, Level::Error);
    }
}

#[test]
fn invalid_byte_degrades_to_replacement_character() {
    let e = OutputEvent::StandardOutLine(vec![0x80]);
    let rec = relay_event(&e).expect("an invalid payload still yields a record");
    assert_eq!(rec.level, Level::Info);
    assert!(rec.text.contains('\u{fffd}'));
}

#[test]
fn valid_utf8_decodes_verbatim() {
    let e = OutputEvent::StandardErrLine("caf\u{e9} au lait".as_bytes().to_vec());
    let rec = relay_event(&e).expect("a valid payload yields a record");
    assert_eq!(rec.text, "caf\u{e9} au lait");
    assert!(!rec.text.contains('\u{fffd}'));
}

#[test]
fn relay_preserves_order() {
    let events = vec![
        OutputEvent::StandardOutLine(b"one".to_vec()),
        OutputEvent::Other,
        OutputEvent::StandardErrLine(b"two".to_vec()),
        OutputEvent::StandardOutLine(b"three".to_vec()),
        OutputEvent::Terminated(1),
        OutputEvent::StandardErrLine(b"four".to_vec()),
    ];
    let records = relay_all(&events);
    let texts: Vec<&str> = records.iter().map(|r| r.text.as_str()).collect();
    assert_eq!(texts, vec!["one", "two", "three", "four"]);
    assert_eq!(records[0].level, Level::Info);
    assert_eq!(records[1].level, Level::Error);
    assert_eq!(records[2].level, Level::Info);
    assert_eq!(records[3].level, Level::Error);
}

#[test]
fn session_scenario_ready_then_warning_then_exit() {
    let events = vec![
        OutputEvent::StandardOutLine(b"ready".to_vec()),
        OutputEvent::StandardErrLine(b"warn: low memory".to_vec()),
        OutputEvent::Terminated(0),
    ];
    let records = relay_all(&events);
    assert_eq!(records.len(), 2);
    assert_eq!(records[0].level, Level::Info);
    assert_eq!(records[0].text, "ready");
    assert_eq!(records[1].level, Level::Error);
    assert_eq!(records[1].text, "warn: low memory");
}

#[test]
fn rendered_lines_carry_the_backend_prefix() {
    let info = LogRecord { level: Level::Info, text: String::from("ready") };
    assert_eq!(info.render(), "backend: ready");
    let error = LogRecord { level: Level::Error, text: String::from("warn: low memory") };
    assert_eq!(error.render(), "backend error: warn: low memory");
}

#[test]
fn successful_launch_schedules_the_relay() {
    let handle = ProcessHandle { id: 7 };
    let outcome = plan_setup(Ok(handle));
    assert_eq!(outcome, SetupOutcome::Started(ProcessHandle { id: 7 }));
}

#[test]
fn launch_failure_aborts_setup_before_the_relay_is_scheduled() {
    let outcome = plan_setup(Err(LaunchError::SidecarNotConfigured));
    assert_eq!(outcome, SetupOutcome::Aborted(LaunchError::SidecarNotConfigured));
    assert!(!matches!(outcome, SetupOutcome::Started(_)));
    let outcome = plan_setup(Err(LaunchError::SpawnFailed));
    assert_eq!(outcome, SetupOutcome::Aborted(LaunchError::SpawnFailed));
    assert!(!matches!(outcome, SetupOutcome::Started(_)));
}

#[test]
fn launch_errors_have_diagnostics() {
    assert_eq!(
        LaunchError::SidecarNotConfigured.message(),
        "sidecar configuration for the backend was not found"
    );
    assert_eq!(
        LaunchError::SpawnFailed.message(),
        "the backend process could not be started"
    );
}

#[test]
fn greet_formats_the_name() {
    assert_eq!(greet("World"), "Hello, World! You've been greeted from Rust!");
    assert_eq!(greet(""), "Hello, ! You've been greeted from Rust!");
}
