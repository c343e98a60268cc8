//! The redirect controller: one run of the lifecycle, from the launch of the
//! backend to the one command that the host window is given.
//!
//! The controller decides and its caller acts. The caller reports what
//! happens (the start, the launch, each event of the backend's output, the
//! prober's outcome) and carries out the directive that the controller
//! answers with. In a run that is not a development run, the window is given
//! exactly one command: the redirect once the backend is ready, or the
//! diagnostic once it is clear that it will not be.

use vstd::prelude::*;
use crate::prober::ReadinessOutcome;
use crate::resolver::endpoint_url;
use crate::resolver::resolve_static;
use crate::resolver::EndpointState;
use crate::resolver::EndpointView;
use crate::supervisor::LaunchConfig;
use crate::supervisor::OutputEvent;
use crate::supervisor::PortMode;
use crate::text::decimal;
use crate::window::WindowCommand;
use crate::window::WindowCommandView;
use crate::window::SETTLE_DELAY_MS;

verus! {

/// Where the lifecycle stands.
#[derive(Clone, Copy, Debug, PartialEq, Eq)]
pub enum Stage {
    /// Nothing has happened yet.
    Idle,
    /// The backend is being launched.
    Launching,
    /// The backend runs, and its port is awaited.
    ResolvingEndpoint,
    /// The endpoint is known, and the prober is at work.
    Probing,
    /// The window has been sent to the backend.
    Redirected,
    /// The window shows the startup diagnostic.
    FallbackShown,
}

/// What the caller reports to the controller.
#[derive(Clone, Debug, PartialEq, Eq)]
pub enum LifecycleEvent {
    /// The application has started; `development` tells whether the window
    /// already points at a development server.
    Start { development: bool },
    /// The backend has been launched.
    Launched,
    /// An event of the backend's output.
    Output(OutputEvent),
    /// The prober has found its outcome.
    Readiness(ReadinessOutcome),
}

/// What the controller asks of its caller.
#[derive(Clone, Debug, PartialEq, Eq)]
pub enum Directive {
    /// Nothing.
    Nothing,
    /// Launch the backend as the configuration says, and report its output.
    Launch,
    /// Probe the backend at `url`, and report the outcome.
    Probe { url: String },
    /// Give the window this command.
    Window(WindowCommand),
}

/// A directive as a plain value.
pub enum DirectiveView {
    Nothing,
    Launch,
    Probe { url: Seq<char> },
    Window(WindowCommandView),
}

impl View for Directive {
    type V = DirectiveView;

    open spec fn view(&self) -> DirectiveView {
        match self {
            Directive::Nothing => DirectiveView::Nothing,
            Directive::Launch => DirectiveView::Launch,
            Directive::Probe { url } => DirectiveView::Probe { url: url@ },
            Directive::Window(command) => DirectiveView::Window(command@),
        }
    }
}

/// The controller as a plain value.
pub struct ControllerState {
    pub mode: PortMode,
    pub stage: Stage,
    pub endpoint: EndpointView,
}

impl ControllerState {
    /// A controller before the start.
    pub open spec fn fresh(mode: PortMode) -> ControllerState {
        ControllerState { mode, stage: Stage::Idle, endpoint: EndpointView::Unresolved }
    }

    /// Whether the window has been given its command.
    pub open spec fn is_final(self) -> bool {
        self.stage is Redirected || self.stage is FallbackShown
    }

    /// The backend is up: with a fixed port the endpoint is known and
    /// probing begins at once; else the port is awaited.
    pub open spec fn launched(self) -> (ControllerState, DirectiveView) {
        match self.mode {
            PortMode::Static(port) => {
                let url = endpoint_url(decimal(port as nat));
                (
                    ControllerState {
                        stage: Stage::Probing,
                        endpoint: EndpointView::Resolved(url),
                        ..self
                    },
                    DirectiveView::Probe { url },
                )
            },
            PortMode::Discover => (
                ControllerState { stage: Stage::ResolvingEndpoint, ..self },
                DirectiveView::Nothing,
            ),
        }
    }

    /// The resolver has read an event: where the endpoint is now known,
    /// probing begins; where it never will be, the window shows the
    /// diagnostic, and nothing is probed.
    pub open spec fn resolved_on(self, event: OutputEvent) -> (ControllerState, DirectiveView) {
        let endpoint = self.endpoint.after(event);
        match endpoint {
            EndpointView::Unresolved => (self, DirectiveView::Nothing),
            EndpointView::Resolved(url) => (
                ControllerState { stage: Stage::Probing, endpoint, ..self },
                DirectiveView::Probe { url },
            ),
            EndpointView::Failed(_) => (
                ControllerState { stage: Stage::FallbackShown, endpoint, ..self },
                DirectiveView::Window(WindowCommandView::Fallback),
            ),
        }
    }

    /// The prober has found its outcome: the window is redirected where the
    /// backend is ready, and shows the diagnostic where it is not.
    pub open spec fn probed(self, outcome: ReadinessOutcome) -> (ControllerState, DirectiveView) {
        match (outcome, self.endpoint) {
            (ReadinessOutcome::Ready, EndpointView::Resolved(url)) => (
                ControllerState { stage: Stage::Redirected, ..self },
                DirectiveView::Window(
                    WindowCommandView::Redirect { url, settle_ms: SETTLE_DELAY_MS },
                ),
            ),
            _ => (
                ControllerState { stage: Stage::FallbackShown, ..self },
                DirectiveView::Window(WindowCommandView::Fallback),
            ),
        }
    }

    /// The controller after an event, and what it asks for. An event that
    /// has no meaning at the stage at which it arrives changes nothing and
    /// calls for nothing.
    pub open spec fn step(self, event: LifecycleEvent) -> (ControllerState, DirectiveView) {
        match (self.stage, event) {
            (Stage::Idle, LifecycleEvent::Start { development }) => if development {
                (self, DirectiveView::Nothing)
            } else {
                (ControllerState { stage: Stage::Launching, ..self }, DirectiveView::Launch)
            },
            (Stage::Launching, LifecycleEvent::Launched) => self.launched(),
            (Stage::Launching, LifecycleEvent::Output(output)) => if output is SpawnError {
                self.resolved_on(output)
            } else {
                (self, DirectiveView::Nothing)
            },
            (Stage::ResolvingEndpoint, LifecycleEvent::Output(output)) => self.resolved_on(output),
            (Stage::Probing, LifecycleEvent::Readiness(outcome)) => self.probed(outcome),
            _ => (self, DirectiveView::Nothing),
        }
    }

    /// What holds of every controller: the endpoint is unresolved until the
    /// port is awaited no more, it is resolved while the backend is probed
    /// and once the window is redirected, and the diagnostic is shown only
    /// after resolution or probing has failed.
    pub open spec fn wf(self) -> bool {
        match self.stage {
            Stage::Idle | Stage::Launching | Stage::ResolvingEndpoint => self.endpoint
                is Unresolved,
            Stage::Probing | Stage::Redirected => self.endpoint is Resolved,
            Stage::FallbackShown => !(self.endpoint is Unresolved),
        }
    }

    /// The controller after a run of events, taken in order.
    pub open spec fn after_all(self, events: Seq<LifecycleEvent>) -> ControllerState
        decreases events.len(),
    {
        if events.len() == 0 {
            self
        } else {
            self.step(events[0]).0.after_all(events.drop_first())
        }
    }

    /// How many redirects the window is given over a run of events.
    pub open spec fn redirects(self, events: Seq<LifecycleEvent>) -> nat
        decreases events.len(),
    {
        if events.len() == 0 {
            0
        } else {
            let (next, directive) = self.step(events[0]);
            let given: nat = if directive matches DirectiveView::Window(
                WindowCommandView::Redirect { .. },
            ) {
                1
            } else {
                0
            };
            given + next.redirects(events.drop_first())
        }
    }

    /// How many times the window is told to show the diagnostic over a run
    /// of events.
    pub open spec fn fallbacks(self, events: Seq<LifecycleEvent>) -> nat
        decreases events.len(),
    {
        if events.len() == 0 {
            0
        } else {
            let (next, directive) = self.step(events[0]);
            let given: nat = if directive matches DirectiveView::Window(
                WindowCommandView::Fallback,
            ) {
                1
            } else {
                0
            };
            given + next.fallbacks(events.drop_first())
        }
    }
}

/// The redirect controller.
pub struct Controller {
    config: LaunchConfig,
    stage: Stage,
    endpoint: EndpointState,
}

impl View for Controller {
    type V = ControllerState;

    closed spec fn view(&self) -> ControllerState {
        ControllerState { mode: self.config.mode, stage: self.stage, endpoint: self.endpoint@ }
    }
}

impl Stage {
    /// Tells whether the window has been given its command at this stage.
    pub fn is_final(&self) -> (last: bool)
        ensures
            last == (self is Redirected || self is FallbackShown),
    {
        match self {
            Stage::Redirected | Stage::FallbackShown => true,
            _ => false,
        }
    }
}

impl Controller {
    /// A controller for one run, before the start.
    pub fn new(config: LaunchConfig) -> (controller: Controller)
        ensures
            controller@ == ControllerState::fresh(config.mode),
            controller@.wf(),
            controller.spec_config() == config,
    {
        Controller { config, stage: Stage::Idle, endpoint: EndpointState::Unresolved }
    }

    /// The configuration of the run.
    pub closed spec fn spec_config(&self) -> LaunchConfig {
        self.config
    }

    /// The configuration of the run.
    pub fn config(&self) -> (config: &LaunchConfig)
        ensures
            *config == self.spec_config(),
            config.mode == self@.mode,
    {
        &self.config
    }

    /// Where the lifecycle stands.
    pub fn stage(&self) -> (stage: Stage)
        ensures
            stage == self@.stage,
    {
        self.stage
    }

    /// What is known of the endpoint.
    pub fn endpoint(&self) -> (endpoint: &EndpointState)
        ensures
            endpoint@ == self@.endpoint,
    {
        &self.endpoint
    }

    fn on_launched(&mut self) -> (directive: Directive)
        requires
            old(self)@.wf(),
            old(self)@.stage is Launching,
        ensures
            (final(self)@, directive@) == old(self)@.launched(),
            final(self).spec_config() == old(self).spec_config(),
    {
        match self.config.mode {
            PortMode::Static(port) => {
                let endpoint = resolve_static(port);
                let directive = match &endpoint {
                    EndpointState::Resolved(url) => Directive::Probe { url: url.clone() },
                    _ => Directive::Nothing,
                };
                self.endpoint = endpoint;
                self.stage = Stage::Probing;
                directive
            },
            PortMode::Discover => {
                self.stage = Stage::ResolvingEndpoint;
                Directive::Nothing
            },
        }
    }

    fn on_output(&mut self, event: &OutputEvent) -> (directive: Directive)
        requires
            old(self)@.wf(),
            old(self)@.endpoint is Unresolved,
        ensures
            (final(self)@, directive@) == old(self)@.resolved_on(*event),
            final(self).spec_config() == old(self).spec_config(),
    {
        self.endpoint.observe(event);
        match &self.endpoint {
            EndpointState::Unresolved => Directive::Nothing,
            EndpointState::Resolved(url) => {
                let directive = Directive::Probe { url: url.clone() };
                self.stage = Stage::Probing;
                directive
            },
            EndpointState::Failed(_) => {
                self.stage = Stage::FallbackShown;
                Directive::Window(WindowCommand::Fallback)
            },
        }
    }

    fn on_outcome(&mut self, outcome: ReadinessOutcome) -> (directive: Directive)
        requires
            old(self)@.wf(),
            old(self)@.stage is Probing,
        ensures
            (final(self)@, directive@) == old(self)@.probed(outcome),
            final(self).spec_config() == old(self).spec_config(),
    {
        match (outcome, &self.endpoint) {
            (ReadinessOutcome::Ready, EndpointState::Resolved(url)) => {
                let directive = Directive::Window(
                    WindowCommand::Redirect { url: url.clone(), settle_ms: SETTLE_DELAY_MS },
                );
                self.stage = Stage::Redirected;
                directive
            },
            _ => {
                self.stage = Stage::FallbackShown;
                Directive::Window(WindowCommand::Fallback)
            },
        }
    }

    /// Takes in an event and tells what to do.
    pub fn handle(&mut self, event: &LifecycleEvent) -> (directive: Directive)
        requires
            old(self)@.wf(),
        ensures
            (final(self)@, directive@) == old(self)@.step(*event),
            final(self)@.wf(),
            final(self).spec_config() == old(self).spec_config(),
    {
        proof {
            lemma_step_keeps_wf(self@, *event);
        }
        match (self.stage, event) {
            (Stage::Idle, LifecycleEvent::Start { development }) => {
                if *development {
                    Directive::Nothing
                } else {
                    self.stage = Stage::Launching;
                    Directive::Launch
                }
            },
            (Stage::Launching, LifecycleEvent::Launched) => self.on_launched(),
            (Stage::Launching, LifecycleEvent::Output(output)) => match output {
                OutputEvent::SpawnError(_) => self.on_output(output),
                _ => Directive::Nothing,
            },
            (Stage::ResolvingEndpoint, LifecycleEvent::Output(output)) => self.on_output(output),
            (Stage::Probing, LifecycleEvent::Readiness(outcome)) => self.on_outcome(*outcome),
            _ => Directive::Nothing,
        }
    }
}

/// Every step leaves the controller well formed.
pub proof fn lemma_step_keeps_wf(state: ControllerState, event: LifecycleEvent)
    requires
        state.wf(),
    ensures
        state.step(event).0.wf(),
{
}

/// Once the window has been given its command, no event changes anything or
/// calls for anything: a second `Ready`, or a `TimedOut` after it, gives the
/// window no second command.
pub proof fn lemma_final_stage_ignores_events(state: ControllerState, event: LifecycleEvent)
    requires
        state.is_final(),
    ensures
        state.step(event) == (state, DirectiveView::Nothing),
{
}

/// The prober's outcome ends the lifecycle: `Ready` redirects the window to
/// the resolved endpoint after the settling delay, `TimedOut` shows the
/// diagnostic, and the same outcome, reported again, calls for nothing.
pub proof fn lemma_outcome_decides_once(state: ControllerState, outcome: ReadinessOutcome)
    requires
        state.wf(),
        state.stage is Probing,
    ensures
        ({
            let (next, directive) = state.step(LifecycleEvent::Readiness(outcome));
            &&& next.is_final()
            &&& outcome is Ready ==> next.stage is Redirected && directive
                == DirectiveView::Window(
                WindowCommandView::Redirect {
                    url: state.endpoint->Resolved_0,
                    settle_ms: SETTLE_DELAY_MS,
                },
            )
            &&& outcome is TimedOut ==> next.stage is FallbackShown && directive
                == DirectiveView::Window(WindowCommandView::Fallback)
            &&& next.step(LifecycleEvent::Readiness(outcome)) == (next, DirectiveView::Nothing)
        }),
{
}

/// While the backend is probed, its output decides nothing: neither its exit
/// nor anything else that it reports ends the wait for the prober.
pub proof fn lemma_output_does_not_end_probing(state: ControllerState, output: OutputEvent)
    requires
        state.stage is Probing,
    ensures
        state.step(LifecycleEvent::Output(output)) == (state, DirectiveView::Nothing),
{
}

/// Probing is asked for only at the moment at which the endpoint becomes
/// known, and for that endpoint; a resolution that fails leads to the
/// diagnostic without any probing.
pub proof fn lemma_probing_follows_resolution(state: ControllerState, event: LifecycleEvent)
    requires
        state.wf(),
    ensures
        ({
            let (next, directive) = state.step(event);
            &&& directive matches DirectiveView::Probe { url } ==> state.endpoint is Unresolved
                && next.endpoint == EndpointView::Resolved(url) && next.stage is Probing
            &&& state.endpoint is Unresolved && next.endpoint is Resolved ==> directive
                is Probe
            &&& state.endpoint is Unresolved && next.endpoint is Failed ==> directive
                == DirectiveView::Window(WindowCommandView::Fallback) && next.stage
                is FallbackShown
        }),
{
}

/// In a development run nothing is launched, probed or shown.
pub proof fn lemma_development_run_is_skipped(mode: PortMode)
    ensures
        ControllerState::fresh(mode).step(LifecycleEvent::Start { development: true }) == (
            ControllerState::fresh(mode),
            DirectiveView::Nothing,
        ),
{
}

/// Over any run of events the window is given at most one command, never a
/// redirect and the diagnostic both; and it has been given one exactly when
/// the lifecycle has reached its end: the redirect where it ends in
/// `Redirected`, the diagnostic where it ends in `FallbackShown`.
pub proof fn lemma_one_window_command(state: ControllerState, events: Seq<LifecycleEvent>)
    requires
        !state.is_final(),
    ensures
        state.redirects(events) == if state.after_all(events).stage is Redirected {
            1nat
        } else {
            0nat
        },
        state.fallbacks(events) == if state.after_all(events).stage is FallbackShown {
            1nat
        } else {
            0nat
        },
    decreases events.len(),
{
    if events.len() > 0 {
        let (next, directive) = state.step(events[0]);
        if next.is_final() {
            lemma_no_command_after_the_end(next, events.drop_first());
        } else {
            lemma_one_window_command(next, events.drop_first());
        }
    }
}

/// After the end of the lifecycle the window is given nothing more.
pub proof fn lemma_no_command_after_the_end(state: ControllerState, events: Seq<LifecycleEvent>)
    requires
        state.is_final(),
    ensures
        state.after_all(events) == state,
        state.redirects(events) == 0,
        state.fallbacks(events) == 0,
    decreases events.len(),
{
    if events.len() > 0 {
        lemma_no_command_after_the_end(state, events.drop_first());
    }
}

/// No stage is a dead end. While the backend is launched, the news that it is
/// up moves the lifecycle on, and the news that it could not be started ends
/// it; while the port is awaited, the exit of the backend ends it; while the
/// backend is probed, the prober's outcome ends it, whichever it is.
pub proof fn lemma_no_stage_is_a_dead_end(
    state: ControllerState,
    reason: String,
    code: Option<i32>,
    signal: Option<i32>,
    outcome: ReadinessOutcome,
)
    requires
        state.wf(),
    ensures
        state.stage is Idle ==> state.step(LifecycleEvent::Start { development: false }).0.stage
            is Launching,
        state.stage is Launching ==> {
            &&& state.step(LifecycleEvent::Launched).0.stage is Probing || state.step(
                LifecycleEvent::Launched,
            ).0.stage is ResolvingEndpoint
            &&& state.step(LifecycleEvent::Output(OutputEvent::SpawnError(reason))).0.stage
                is FallbackShown
        },
        state.stage is ResolvingEndpoint ==> state.step(
            LifecycleEvent::Output(OutputEvent::Terminated { code, signal }),
        ).0.stage is FallbackShown,
        state.stage is Probing ==> state.step(LifecycleEvent::Readiness(outcome)).0.is_final(),
{
}

} // verus!
