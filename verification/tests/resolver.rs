use backend_launcher::resolver::resolve_from_output;
use backend_launcher::resolver::resolve_static;
use backend_launcher::resolver::EndpointState;
use backend_launcher::supervisor::OutputEvent;

fn out(line: &str) -> OutputEvent {
    OutputEvent::Stdout(line.as_bytes().to_vec())
}

fn err(line: &str) -> OutputEvent {
    OutputEvent::Stderr(line.as_bytes().to_vec())
}

fn exit() -> OutputEvent {
    OutputEvent::Terminated { code: Some(1), signal: None }
}

fn resolved(url: &str) -> EndpointState {
    EndpointState::Resolved(url.to_string())
}

fn never_announced() -> EndpointState {
    EndpointState::Failed("the backend exited before it announced its port".to_string())
}

fn never_started() -> EndpointState {
    EndpointState::Failed("the backend could not be started".to_string())
}

#[test]
fn static_port_resolves_at_once() {
    assert_eq!(resolve_static(4001), resolved("http://localhost:4001"));
    assert_eq!(resolve_static(80), resolved("http://localhost:80"));
    assert_eq!(resolve_static(65535), resolved("http://localhost:65535"));
}

#[test]
fn announcement_resolves_the_endpoint() {
    let mut state = EndpointState::Unresolved;
    let changed = state.observe(&out("Running X with Bandit 1.8.0 at 127.0.0.1:54321 (http)"));
    assert!(changed);
    assert_eq!(state, resolved("http://localhost:54321"));
}

#[test]
fn malformed_lines_leave_the_state_and_scanning_goes_on() {
    let mut state = EndpointState::Unresolved;
    for line in [
        "Running at 127.0.0.1:",
        "Running at 127.0.0.1: 4000 ",
        "Running at 127.0.0.1:4000abc (http)",
        "Running at 127.0.0.1:abc",
        "Running at 127.0.0.1:4000",
        "compiling 12 files",
        "",
    ] {
        assert!(!state.observe(&out(line)));
        assert_eq!(state, EndpointState::Unresolved);
    }
    assert!(state.observe(&out("Running at 127.0.0.1:4000 (http)")));
    assert_eq!(state, resolved("http://localhost:4000"));
}

#[test]
fn standard_error_is_not_scanned() {
    let mut state = EndpointState::Unresolved;
    assert!(!state.observe(&err("Running X with Bandit 1.8.0 at 127.0.0.1:54321 (http)")));
    assert_eq!(state, EndpointState::Unresolved);
}

#[test]
fn exit_before_announcement_fails_once() {
    let mut state = EndpointState::Unresolved;
    assert!(!state.observe(&out("booting")));
    assert!(state.observe(&exit()));
    assert_eq!(state, never_announced());
    assert!(!state.observe(&exit()));
    assert!(!state.observe(&out("Running at 127.0.0.1:4000 (http)")));
    assert!(!state.observe(&OutputEvent::SpawnError("late".to_string())));
    assert_eq!(state, never_announced());
}

#[test]
fn spawn_error_fails_resolution() {
    let mut state = EndpointState::Unresolved;
    assert!(state.observe(&OutputEvent::SpawnError("no such file".to_string())));
    assert_eq!(state, never_started());
    assert!(!state.observe(&exit()));
    assert_eq!(state, never_started());
}

#[test]
fn resolved_endpoint_never_changes() {
    let mut state = EndpointState::Unresolved;
    assert!(state.observe(&out("Running at 127.0.0.1:4000 (http)")));
    assert!(!state.observe(&out("Running at 127.0.0.1:5000 (http)")));
    assert!(!state.observe(&exit()));
    assert!(!state.observe(&OutputEvent::SpawnError("late".to_string())));
    assert_eq!(state, resolved("http://localhost:4000"));
}

#[test]
fn whole_output_first_announcement_wins() {
    let events = vec![
        out("booting"),
        err("warning: something"),
        out("Running at 127.0.0.1:oops (http)"),
        out("Running Foo with Bandit 1.8.0 at 127.0.0.1:58233 endpoint"),
        out("Running Foo with Bandit 1.8.0 at 127.0.0.1:1 endpoint"),
        exit(),
    ];
    assert_eq!(resolve_from_output(&events), resolved("http://localhost:58233"));
}

#[test]
fn whole_output_that_ends_without_announcement_fails() {
    let events = vec![
        out("booting"),
        err("** (RuntimeError) could not open the database"),
        exit(),
        out("Running at 127.0.0.1:4000 (http)"),
    ];
    assert_eq!(resolve_from_output(&events), never_announced());
}

#[test]
fn whole_output_that_has_not_ended_is_unresolved() {
    assert_eq!(resolve_from_output(&[]), EndpointState::Unresolved);
    let events = vec![out("booting"), err("Running at 127.0.0.1:4000 (http)")];
    assert_eq!(resolve_from_output(&events), EndpointState::Unresolved);
}

#[test]
fn whole_output_agrees_with_reading_event_by_event() {
    let events = vec![
        out("booting"),
        out("Running at 127.0.0.1:4000"),
        out("Running at 127.0.0.1:4000 (http)"),
        exit(),
    ];
    for cut in 0..=events.len() {
        let mut state = EndpointState::Unresolved;
        for event in &events[..cut] {
            state.observe(event);
        }
        assert_eq!(resolve_from_output(&events[..cut]), state);
    }
}
