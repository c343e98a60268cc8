use backend_launcher::controller::Controller;
use backend_launcher::controller::Directive;
use backend_launcher::controller::LifecycleEvent;
use backend_launcher::controller::Stage;
use backend_launcher::prober::ReadinessOutcome;
use backend_launcher::resolver::EndpointState;
use backend_launcher::supervisor::LaunchConfig;
use backend_launcher::supervisor::OutputEvent;
use backend_launcher::supervisor::PortMode;
use backend_launcher::window::WindowCommand;

const START: LifecycleEvent = LifecycleEvent::Start { development: false };
const READY: LifecycleEvent = LifecycleEvent::Readiness(ReadinessOutcome::Ready);
const TIMED_OUT: LifecycleEvent = LifecycleEvent::Readiness(ReadinessOutcome::TimedOut);

fn controller(mode: PortMode) -> Controller {
    Controller::new(LaunchConfig::new(
        "todo_err_launcher".to_string(),
        "/data/TodoErr/todo_err.db".to_string(),
        mode,
    ))
}

fn out(line: &str) -> LifecycleEvent {
    LifecycleEvent::Output(OutputEvent::Stdout(line.as_bytes().to_vec()))
}

fn err(line: &str) -> LifecycleEvent {
    LifecycleEvent::Output(OutputEvent::Stderr(line.as_bytes().to_vec()))
}

fn exit() -> LifecycleEvent {
    LifecycleEvent::Output(OutputEvent::Terminated { code: Some(1), signal: None })
}

fn spawn_error() -> LifecycleEvent {
    LifecycleEvent::Output(OutputEvent::SpawnError("no such file".to_string()))
}

fn probe(url: &str) -> Directive {
    Directive::Probe { url: url.to_string() }
}

fn redirect(url: &str) -> Directive {
    Directive::Window(WindowCommand::Redirect { url: url.to_string(), settle_ms: 500 })
}

fn fallback() -> Directive {
    Directive::Window(WindowCommand::Fallback)
}

fn every_event() -> Vec<LifecycleEvent> {
    vec![
        START,
        LifecycleEvent::Start { development: true },
        LifecycleEvent::Launched,
        out("Running at 127.0.0.1:4000 (http)"),
        out("booting"),
        err("warning"),
        exit(),
        spawn_error(),
        READY,
        TIMED_OUT,
    ]
}

#[test]
fn new_controller_is_idle() {
    let made = controller(PortMode::Static(4001));
    assert_eq!(made.stage(), Stage::Idle);
    assert_eq!(*made.endpoint(), EndpointState::Unresolved);
    assert_eq!(made.config().mode, PortMode::Static(4001));
    assert_eq!(made.config().executable, "todo_err_launcher");
    assert_eq!(made.config().database_path, "/data/TodoErr/todo_err.db");
}

#[test]
fn development_run_is_skipped() {
    let mut run = controller(PortMode::Static(4001));
    assert_eq!(run.handle(&LifecycleEvent::Start { development: true }), Directive::Nothing);
    assert_eq!(run.stage(), Stage::Idle);
    assert_eq!(*run.endpoint(), EndpointState::Unresolved);
}

#[test]
fn start_launches_the_backend() {
    let mut run = controller(PortMode::Discover);
    assert_eq!(run.handle(&START), Directive::Launch);
    assert_eq!(run.stage(), Stage::Launching);
}

#[test]
fn static_port_is_probed_as_soon_as_the_backend_is_up() {
    let mut run = controller(PortMode::Static(4001));
    run.handle(&START);
    assert_eq!(run.handle(&LifecycleEvent::Launched), probe("http://localhost:4001"));
    assert_eq!(run.stage(), Stage::Probing);
    assert_eq!(*run.endpoint(), EndpointState::Resolved("http://localhost:4001".to_string()));
}

#[test]
fn discovered_port_is_probed_once_announced() {
    let mut run = controller(PortMode::Discover);
    run.handle(&START);
    assert_eq!(run.handle(&LifecycleEvent::Launched), Directive::Nothing);
    assert_eq!(run.stage(), Stage::ResolvingEndpoint);
    assert_eq!(run.handle(&out("booting")), Directive::Nothing);
    assert_eq!(run.handle(&err("Running at 127.0.0.1:1 (http)")), Directive::Nothing);
    assert_eq!(run.handle(&out("Running at 127.0.0.1:oops (http)")), Directive::Nothing);
    assert_eq!(run.stage(), Stage::ResolvingEndpoint);
    assert_eq!(
        run.handle(&out("Running X with Bandit 1.8.0 at 127.0.0.1:54321 (http)")),
        probe("http://localhost:54321")
    );
    assert_eq!(run.stage(), Stage::Probing);
    assert_eq!(run.handle(&out("Running at 127.0.0.1:2 (http)")), Directive::Nothing);
    assert_eq!(*run.endpoint(), EndpointState::Resolved("http://localhost:54321".to_string()));
}

#[test]
fn ready_redirects_after_the_settling_delay() {
    let mut run = controller(PortMode::Static(4001));
    run.handle(&START);
    run.handle(&LifecycleEvent::Launched);
    assert_eq!(run.handle(&READY), redirect("http://localhost:4001"));
    assert_eq!(run.stage(), Stage::Redirected);
    assert!(run.stage().is_final());
}

#[test]
fn timed_out_shows_the_diagnostic() {
    let mut run = controller(PortMode::Static(4001));
    run.handle(&START);
    run.handle(&LifecycleEvent::Launched);
    assert_eq!(run.handle(&TIMED_OUT), fallback());
    assert_eq!(run.stage(), Stage::FallbackShown);
    assert!(run.stage().is_final());
}

#[test]
fn exit_before_announcement_shows_the_diagnostic_without_probing() {
    let mut run = controller(PortMode::Discover);
    run.handle(&START);
    run.handle(&LifecycleEvent::Launched);
    assert_eq!(run.handle(&out("booting")), Directive::Nothing);
    assert_eq!(run.handle(&exit()), fallback());
    assert_eq!(run.stage(), Stage::FallbackShown);
    assert_eq!(
        *run.endpoint(),
        EndpointState::Failed("the backend exited before it announced its port".to_string())
    );
    assert_eq!(run.handle(&out("Running at 127.0.0.1:4000 (http)")), Directive::Nothing);
    assert_eq!(run.handle(&READY), Directive::Nothing);
}

#[test]
fn failed_launch_shows_the_diagnostic() {
    for mode in [PortMode::Static(4001), PortMode::Discover] {
        let mut run = controller(mode);
        run.handle(&START);
        assert_eq!(run.handle(&spawn_error()), fallback());
        assert_eq!(run.stage(), Stage::FallbackShown);
        assert_eq!(
            *run.endpoint(),
            EndpointState::Failed("the backend could not be started".to_string())
        );
        assert_eq!(run.handle(&LifecycleEvent::Launched), Directive::Nothing);
        assert_eq!(run.stage(), Stage::FallbackShown);
    }
}

#[test]
fn spawn_error_while_the_port_is_awaited_shows_the_diagnostic() {
    let mut run = controller(PortMode::Discover);
    run.handle(&START);
    run.handle(&LifecycleEvent::Launched);
    assert_eq!(run.handle(&spawn_error()), fallback());
    assert_eq!(run.stage(), Stage::FallbackShown);
}

#[test]
fn output_while_launching_is_left_alone() {
    let mut run = controller(PortMode::Discover);
    run.handle(&START);
    assert_eq!(run.handle(&out("Running at 127.0.0.1:4000 (http)")), Directive::Nothing);
    assert_eq!(run.handle(&exit()), Directive::Nothing);
    assert_eq!(run.stage(), Stage::Launching);
    assert_eq!(*run.endpoint(), EndpointState::Unresolved);
}

#[test]
fn exit_while_probing_does_not_end_the_wait() {
    let mut run = controller(PortMode::Discover);
    run.handle(&START);
    run.handle(&LifecycleEvent::Launched);
    run.handle(&out("Running at 127.0.0.1:4000 (http)"));
    assert_eq!(run.handle(&exit()), Directive::Nothing);
    assert_eq!(run.handle(&spawn_error()), Directive::Nothing);
    assert_eq!(run.stage(), Stage::Probing);
    assert_eq!(run.handle(&TIMED_OUT), fallback());
}

#[test]
fn duplicate_ready_gives_no_second_command() {
    let mut run = controller(PortMode::Static(4001));
    run.handle(&START);
    run.handle(&LifecycleEvent::Launched);
    assert_eq!(run.handle(&READY), redirect("http://localhost:4001"));
    assert_eq!(run.handle(&READY), Directive::Nothing);
    assert_eq!(run.handle(&READY), Directive::Nothing);
    assert_eq!(run.handle(&TIMED_OUT), Directive::Nothing);
    assert_eq!(run.stage(), Stage::Redirected);
}

#[test]
fn duplicate_timed_out_gives_no_second_command() {
    let mut run = controller(PortMode::Static(4001));
    run.handle(&START);
    run.handle(&LifecycleEvent::Launched);
    assert_eq!(run.handle(&TIMED_OUT), fallback());
    assert_eq!(run.handle(&TIMED_OUT), Directive::Nothing);
    assert_eq!(run.handle(&READY), Directive::Nothing);
    assert_eq!(run.stage(), Stage::FallbackShown);
}

#[test]
fn nothing_moves_a_finished_run() {
    for last in [READY, TIMED_OUT] {
        let mut run = controller(PortMode::Static(4001));
        run.handle(&START);
        run.handle(&LifecycleEvent::Launched);
        run.handle(&last);
        let stage = run.stage();
        let endpoint = run.endpoint().clone();
        for event in every_event() {
            assert_eq!(run.handle(&event), Directive::Nothing);
            assert_eq!(run.stage(), stage);
            assert_eq!(*run.endpoint(), endpoint);
        }
    }
}

#[test]
fn the_lifecycle_is_not_run_twice() {
    let mut run = controller(PortMode::Static(4001));
    run.handle(&START);
    assert_eq!(run.handle(&START), Directive::Nothing);
    run.handle(&LifecycleEvent::Launched);
    assert_eq!(run.handle(&START), Directive::Nothing);
    assert_eq!(run.handle(&LifecycleEvent::Launched), Directive::Nothing);
    assert_eq!(run.stage(), Stage::Probing);
}

#[test]
fn events_before_the_start_are_ignored() {
    let mut run = controller(PortMode::Discover);
    for event in every_event() {
        if event == START {
            continue;
        }
        assert_eq!(run.handle(&event), Directive::Nothing);
        assert_eq!(run.stage(), Stage::Idle);
    }
}

#[test]
fn readiness_before_probing_is_ignored() {
    let mut run = controller(PortMode::Discover);
    run.handle(&START);
    assert_eq!(run.handle(&READY), Directive::Nothing);
    run.handle(&LifecycleEvent::Launched);
    assert_eq!(run.handle(&READY), Directive::Nothing);
    assert_eq!(run.handle(&TIMED_OUT), Directive::Nothing);
    assert_eq!(run.stage(), Stage::ResolvingEndpoint);
}

// Every run of up to five events: the window is given at most one command,
// and exactly one where the run has reached its end.
#[test]
fn at_most_one_window_command_over_any_run() {
    let events = every_event();
    let count = events.len();
    for mode in [PortMode::Static(4001), PortMode::Discover] {
        let mut code: usize = 0;
        while code < count * count * count * count * count {
            let mut run = controller(mode);
            let mut commands: u32 = 0;
            let mut rest = code;
            for _ in 0..5 {
                if let Directive::Window(_) = run.handle(&events[rest % count]) {
                    commands += 1;
                }
                rest /= count;
            }
            assert!(commands <= 1);
            assert_eq!(commands == 1, run.stage().is_final());
            code += 7;
        }
    }
}
