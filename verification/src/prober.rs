//! The readiness prober: the decisions of the retry loop that waits for the
//! backend to answer.
//!
//! The prober does no network access and reads no clock. Its caller performs
//! what the prober asks for, one thing at a time (one request with its own
//! timeout, or one wait), and reports back with the reading of a clock in
//! milliseconds. The prober answers with what to do next, until it gives its
//! outcome: `Ready` with the first response that shows the backend alive,
//! `TimedOut` once the overall timeout has run out.

use vstd::prelude::*;
use vstd::arithmetic::div_mod::lemma_div_is_ordered;
use vstd::arithmetic::div_mod::lemma_div_multiples_vanish;
use vstd::arithmetic::div_mod::lemma_div_pos_is_pos;

verus! {

/// What the prober finds.
#[derive(Clone, Copy, Debug, PartialEq, Eq)]
pub enum ReadinessOutcome {
    /// The backend has answered.
    Ready,
    /// The backend has not answered within the overall timeout.
    TimedOut,
}

/// The times that govern probing, in milliseconds.
#[derive(Clone, Copy, Debug, PartialEq, Eq)]
pub struct ProbePolicy {
    /// How long the prober goes on in all.
    pub timeout_ms: u64,
    /// How long it waits after a failed attempt.
    pub cadence_ms: u64,
    /// How long a single attempt may last.
    pub attempt_timeout_ms: u64,
}

/// How one attempt ended.
#[derive(Clone, Copy, Debug, PartialEq, Eq)]
pub enum AttemptResult {
    /// A response arrived, with this status code.
    Status(u16),
    /// No response: the connection was refused, the name was not found, or
    /// the attempt ran out of time.
    NoResponse,
}

/// What the caller tells the prober.
#[derive(Clone, Copy, Debug, PartialEq, Eq)]
pub enum ProbeEvent {
    /// Probing begins.
    Started,
    /// The attempt that the prober asked for has ended.
    AttemptFinished(AttemptResult),
    /// The wait that the prober asked for is over.
    Woke,
}

/// What the prober asks of its caller.
#[derive(Clone, Copy, Debug, PartialEq, Eq)]
pub enum ProbeAction {
    /// Send one request to the target and report how it ended; give up on it
    /// after `timeout_ms`.
    Attempt { timeout_ms: u64 },
    /// Wait for `ms` and report back.
    Wait { ms: u64 },
    /// Probing is over, with this outcome.
    Finish(ReadinessOutcome),
    /// The event called for nothing.
    Nothing,
}

/// Where the prober stands.
#[derive(Clone, Copy, Debug, PartialEq, Eq)]
pub enum ProbePhase {
    /// Not started.
    Idle,
    /// An attempt is under way.
    Attempting,
    /// Between two attempts.
    Waiting,
    /// Over, with this outcome.
    Finished(ReadinessOutcome),
}

/// Whether a status code shows the backend alive: any success (2xx) and any
/// redirect (3xx) does.
pub open spec fn status_is_alive(status: u16) -> bool {
    200 <= status <= 399
}

/// Whether an attempt has shown the backend alive.
pub open spec fn shows_alive(result: AttemptResult) -> bool {
    match result {
        AttemptResult::Status(status) => status_is_alive(status),
        AttemptResult::NoResponse => false,
    }
}

/// `ceil(timeout / cadence)`, for a positive cadence.
pub open spec fn attempts_that_fit(timeout: int, cadence: int) -> int {
    (timeout + cadence - 1) / cadence
}

/// The prober as a plain value. Times are in milliseconds; those that are
/// not readings of the clock count from the start of probing.
pub struct ProberState {
    /// The URL that attempts are sent to.
    pub target: Seq<char>,
    pub policy: ProbePolicy,
    pub phase: ProbePhase,
    /// The reading of the clock when probing began.
    pub started_at: u64,
    /// The latest time that the prober has seen.
    pub elapsed: u64,
    /// How many attempts it has asked for.
    pub attempts: u64,
    /// When it asked for the latest of them.
    pub last_attempt: u64,
    /// When the wait between two attempts ends.
    pub resume: u64,
}

impl ProberState {
    /// A prober that has not started.
    pub open spec fn fresh(target: Seq<char>, policy: ProbePolicy) -> ProberState {
        ProberState {
            target,
            policy,
            phase: ProbePhase::Idle,
            started_at: 0,
            elapsed: 0,
            attempts: 0,
            last_attempt: 0,
            resume: 0,
        }
    }

    /// The time since the start at a reading of the clock. A reading that
    /// lies before an earlier one counts as that earlier one: to the prober
    /// time does not go back.
    pub open spec fn elapsed_at(self, now: u64) -> u64 {
        if now - self.started_at > self.elapsed {
            (now - self.started_at) as u64
        } else {
            self.elapsed
        }
    }

    /// The number of attempts after one more.
    pub open spec fn one_more_attempt(self) -> u64 {
        if self.attempts < u64::MAX {
            (self.attempts + 1) as u64
        } else {
            self.attempts
        }
    }

    /// Whether the prober has asked for something that is not reported yet.
    pub open spec fn pending(self) -> bool {
        self.phase is Attempting || self.phase is Waiting
    }

    /// Whether an event is the report that the prober waits for.
    pub open spec fn awaits(self, event: ProbeEvent) -> bool {
        match (self.phase, event) {
            (ProbePhase::Idle, ProbeEvent::Started) => true,
            (ProbePhase::Attempting, ProbeEvent::AttemptFinished(_)) => true,
            (ProbePhase::Waiting, ProbeEvent::Woke) => true,
            _ => false,
        }
    }

    /// Probing begins: the first attempt goes out at once, unless there is no
    /// time at all.
    pub open spec fn begin(self, now: u64) -> (ProberState, ProbeAction) {
        if self.policy.timeout_ms == 0 {
            (
                ProberState {
                    phase: ProbePhase::Finished(ReadinessOutcome::TimedOut),
                    started_at: now,
                    elapsed: 0,
                    ..self
                },
                ProbeAction::Finish(ReadinessOutcome::TimedOut),
            )
        } else {
            (
                ProberState {
                    phase: ProbePhase::Attempting,
                    started_at: now,
                    elapsed: 0,
                    attempts: 1,
                    last_attempt: 0,
                    ..self
                },
                ProbeAction::Attempt { timeout_ms: self.policy.attempt_timeout_ms },
            )
        }
    }

    /// An attempt has ended: a response that shows the backend alive ends
    /// probing; after any other end the prober gives up where the timeout has
    /// run out, and else waits for the cadence, though not beyond the timeout.
    pub open spec fn take_result(self, now: u64, result: AttemptResult) -> (
        ProberState,
        ProbeAction,
    ) {
        let elapsed = self.elapsed_at(now);
        if shows_alive(result) {
            (
                ProberState {
                    phase: ProbePhase::Finished(ReadinessOutcome::Ready),
                    elapsed,
                    ..self
                },
                ProbeAction::Finish(ReadinessOutcome::Ready),
            )
        } else if elapsed >= self.policy.timeout_ms {
            (
                ProberState {
                    phase: ProbePhase::Finished(ReadinessOutcome::TimedOut),
                    elapsed,
                    ..self
                },
                ProbeAction::Finish(ReadinessOutcome::TimedOut),
            )
        } else {
            let resume = if self.policy.cadence_ms >= self.policy.timeout_ms - elapsed {
                self.policy.timeout_ms
            } else {
                (elapsed + self.policy.cadence_ms) as u64
            };
            (
                ProberState { phase: ProbePhase::Waiting, elapsed, resume, ..self },
                ProbeAction::Wait { ms: (resume - elapsed) as u64 },
            )
        }
    }

    /// A wait is over: the prober gives up where the timeout has run out,
    /// waits on where it was woken early, and else asks for the next attempt.
    pub open spec fn wake(self, now: u64) -> (ProberState, ProbeAction) {
        let elapsed = self.elapsed_at(now);
        if elapsed >= self.policy.timeout_ms {
            (
                ProberState {
                    phase: ProbePhase::Finished(ReadinessOutcome::TimedOut),
                    elapsed,
                    ..self
                },
                ProbeAction::Finish(ReadinessOutcome::TimedOut),
            )
        } else if elapsed < self.resume {
            (
                ProberState { elapsed, ..self },
                ProbeAction::Wait { ms: (self.resume - elapsed) as u64 },
            )
        } else {
            (
                ProberState {
                    phase: ProbePhase::Attempting,
                    elapsed,
                    attempts: self.one_more_attempt(),
                    last_attempt: elapsed,
                    ..self
                },
                ProbeAction::Attempt { timeout_ms: self.policy.attempt_timeout_ms },
            )
        }
    }

    /// The prober after an event that is reported at the reading `now` of
    /// the clock, and what it asks for. An event that it does not wait for
    /// changes nothing and calls for nothing.
    pub open spec fn step(self, now: u64, event: ProbeEvent) -> (ProberState, ProbeAction) {
        match (self.phase, event) {
            (ProbePhase::Idle, ProbeEvent::Started) => self.begin(now),
            (ProbePhase::Attempting, ProbeEvent::AttemptFinished(result)) => self.take_result(
                now,
                result,
            ),
            (ProbePhase::Waiting, ProbeEvent::Woke) => self.wake(now),
            _ => (self, ProbeAction::Nothing),
        }
    }

    /// What holds of every prober: attempts lie within the timeout and at
    /// least one cadence apart, and a wait ends no later than the timeout.
    pub open spec fn wf(self) -> bool {
        let timeout = self.policy.timeout_ms;
        let cadence = self.policy.cadence_ms;
        match self.phase {
            ProbePhase::Idle => self.attempts == 0 && self.elapsed == 0,
            ProbePhase::Attempting => {
                &&& self.attempts >= 1
                &&& (self.attempts - 1) * cadence <= self.last_attempt
                &&& self.last_attempt == self.elapsed
                &&& self.last_attempt < timeout
            },
            ProbePhase::Waiting => {
                &&& self.attempts >= 1
                &&& (self.attempts - 1) * cadence <= self.last_attempt
                &&& self.last_attempt <= self.elapsed
                &&& self.elapsed < timeout
                &&& self.elapsed <= self.resume <= timeout
                &&& (self.resume == timeout || self.resume >= self.last_attempt + cadence)
            },
            ProbePhase::Finished(_) => {
                if self.attempts == 0 {
                    timeout == 0
                } else {
                    &&& (self.attempts - 1) * cadence <= self.last_attempt
                    &&& self.last_attempt <= self.elapsed
                    &&& self.last_attempt < timeout
                }
            },
        }
    }

    /// The time by which the report that the prober waits for is in, where
    /// an attempt keeps to its own timeout and a wait to its length.
    pub open spec fn due(self) -> int {
        match self.phase {
            ProbePhase::Attempting => self.last_attempt + self.policy.attempt_timeout_ms,
            ProbePhase::Waiting => self.resume as int,
            _ => self.elapsed as int,
        }
    }

    /// The prober after a run of reports, each the reading of the clock and
    /// the event, taken in order.
    pub open spec fn after_all(self, reports: Seq<(u64, ProbeEvent)>) -> ProberState
        decreases reports.len(),
    {
        if reports.len() == 0 {
            self
        } else {
            self.step(reports[0].0, reports[0].1).0.after_all(reports.drop_first())
        }
    }

    /// Whether a report is what a caller makes that keeps its side against a
    /// backend that is not up: the report is the one that the prober waits
    /// for, it shows nothing alive, the end of an attempt comes no later than
    /// the attempt's own timeout allows, and a wait ends on time.
    pub open spec fn kept(self, now: u64, event: ProbeEvent) -> bool {
        &&& self.awaits(event)
        &&& !(event matches ProbeEvent::AttemptFinished(result) && shows_alive(result))
        &&& self.phase is Attempting ==> now - self.started_at <= self.due()
        &&& self.phase is Waiting ==> now - self.started_at == self.due()
    }

    /// Whether every report of a run is so made.
    pub open spec fn kept_all(self, reports: Seq<(u64, ProbeEvent)>) -> bool
        decreases reports.len(),
    {
        reports.len() > 0 ==> {
            &&& self.kept(reports[0].0, reports[0].1)
            &&& self.step(reports[0].0, reports[0].1).0.kept_all(reports.drop_first())
        }
    }

    /// How many reports the prober can still take in before it must have
    /// found its outcome, against a backend that is not up.
    pub open spec fn reports_left(self) -> int {
        let most = attempts_that_fit(
            self.policy.timeout_ms as int,
            self.policy.cadence_ms as int,
        ) + 1;
        match self.phase {
            ProbePhase::Idle => 2 * most + 1,
            ProbePhase::Attempting => 2 * (most - self.attempts) + 2,
            ProbePhase::Waiting => 2 * (most - self.attempts) + 1,
            ProbePhase::Finished(_) => 0,
        }
    }
}

/// The prober.
pub struct Prober {
    target: String,
    policy: ProbePolicy,
    phase: ProbePhase,
    started_at: u64,
    elapsed: u64,
    attempts: u64,
    last_attempt: u64,
    resume: u64,
}

impl View for Prober {
    type V = ProberState;

    closed spec fn view(&self) -> ProberState {
        ProberState {
            target: self.target@,
            policy: self.policy,
            phase: self.phase,
            started_at: self.started_at,
            elapsed: self.elapsed,
            attempts: self.attempts,
            last_attempt: self.last_attempt,
            resume: self.resume,
        }
    }
}

/// Tells whether a status code shows the backend alive.
pub fn is_alive_status(status: u16) -> (alive: bool)
    ensures
        alive == status_is_alive(status),
{
    200 <= status && status <= 399
}

impl AttemptResult {
    /// Tells whether this attempt has shown the backend alive.
    pub fn is_alive(&self) -> (alive: bool)
        ensures
            alive == shows_alive(*self),
    {
        match self {
            AttemptResult::Status(status) => is_alive_status(*status),
            AttemptResult::NoResponse => false,
        }
    }
}

impl ProbePolicy {
    /// The usual times: half a minute in all, an attempt every half second,
    /// two seconds for each.
    pub fn reference() -> (policy: ProbePolicy)
        ensures
            policy.timeout_ms == 30_000,
            policy.cadence_ms == 500,
            policy.attempt_timeout_ms == 2_000,
    {
        ProbePolicy { timeout_ms: 30_000, cadence_ms: 500, attempt_timeout_ms: 2_000 }
    }
}

impl Prober {
    /// A prober for the backend at `url`, not started. Its attempts go to
    /// the root of that URL.
    pub fn new(url: &str, policy: ProbePolicy) -> (prober: Prober)
        ensures
            prober@ == ProberState::fresh(url@ + "/"@, policy),
            prober@.wf(),
    {
        let mut target = String::from_str(url);
        target.append("/");
        Prober {
            target,
            policy,
            phase: ProbePhase::Idle,
            started_at: 0,
            elapsed: 0,
            attempts: 0,
            last_attempt: 0,
            resume: 0,
        }
    }

    /// The URL that attempts are sent to.
    pub fn target(&self) -> (target: &str)
        ensures
            target@ == self@.target,
    {
        self.target.as_str()
    }

    /// The times that govern this prober.
    pub fn policy(&self) -> (policy: ProbePolicy)
        ensures
            policy == self@.policy,
    {
        self.policy
    }

    /// Where the prober stands.
    pub fn phase(&self) -> (phase: ProbePhase)
        ensures
            phase == self@.phase,
    {
        self.phase
    }

    /// How many attempts the prober has asked for.
    pub fn attempts(&self) -> (attempts: u64)
        ensures
            attempts == self@.attempts,
    {
        self.attempts
    }

    /// The outcome, once there is one.
    pub fn outcome(&self) -> (outcome: Option<ReadinessOutcome>)
        ensures
            outcome == match self@.phase {
                ProbePhase::Finished(found) => Some(found),
                _ => None,
            },
    {
        match self.phase {
            ProbePhase::Finished(found) => Some(found),
            _ => None,
        }
    }

    fn elapsed_at(&self, now: u64) -> (elapsed: u64)
        ensures
            elapsed == self@.elapsed_at(now),
    {
        if now >= self.started_at && now - self.started_at > self.elapsed {
            now - self.started_at
        } else {
            self.elapsed
        }
    }

    /// Takes in an event, reported at the reading `now` of a clock in
    /// milliseconds, and tells what to do next.
    pub fn advance(&mut self, now: u64, event: ProbeEvent) -> (action: ProbeAction)
        requires
            old(self)@.wf(),
        ensures
            (final(self)@, action) == old(self)@.step(now, event),
            final(self)@.wf(),
    {
        proof {
            lemma_step_keeps_wf(self@, now, event);
        }
        match (self.phase, event) {
            (ProbePhase::Idle, ProbeEvent::Started) => {
                self.started_at = now;
                self.elapsed = 0;
                if self.policy.timeout_ms == 0 {
                    self.phase = ProbePhase::Finished(ReadinessOutcome::TimedOut);
                    ProbeAction::Finish(ReadinessOutcome::TimedOut)
                } else {
                    self.phase = ProbePhase::Attempting;
                    self.attempts = 1;
                    self.last_attempt = 0;
                    ProbeAction::Attempt { timeout_ms: self.policy.attempt_timeout_ms }
                }
            },
            (ProbePhase::Attempting, ProbeEvent::AttemptFinished(result)) => {
                let elapsed = self.elapsed_at(now);
                self.elapsed = elapsed;
                if result.is_alive() {
                    self.phase = ProbePhase::Finished(ReadinessOutcome::Ready);
                    ProbeAction::Finish(ReadinessOutcome::Ready)
                } else if elapsed >= self.policy.timeout_ms {
                    self.phase = ProbePhase::Finished(ReadinessOutcome::TimedOut);
                    ProbeAction::Finish(ReadinessOutcome::TimedOut)
                } else {
                    let resume = if self.policy.cadence_ms >= self.policy.timeout_ms - elapsed {
                        self.policy.timeout_ms
                    } else {
                        elapsed + self.policy.cadence_ms
                    };
                    self.phase = ProbePhase::Waiting;
                    self.resume = resume;
                    ProbeAction::Wait { ms: resume - elapsed }
                }
            },
            (ProbePhase::Waiting, ProbeEvent::Woke) => {
                let elapsed = self.elapsed_at(now);
                self.elapsed = elapsed;
                if elapsed >= self.policy.timeout_ms {
                    self.phase = ProbePhase::Finished(ReadinessOutcome::TimedOut);
                    ProbeAction::Finish(ReadinessOutcome::TimedOut)
                } else if elapsed < self.resume {
                    ProbeAction::Wait { ms: self.resume - elapsed }
                } else {
                    self.phase = ProbePhase::Attempting;
                    if self.attempts < u64::MAX {
                        self.attempts = self.attempts + 1;
                    }
                    self.last_attempt = elapsed;
                    ProbeAction::Attempt { timeout_ms: self.policy.attempt_timeout_ms }
                }
            },
            _ => ProbeAction::Nothing,
        }
    }
}

/// Every step leaves the prober well formed.
pub proof fn lemma_step_keeps_wf(state: ProberState, now: u64, event: ProbeEvent)
    requires
        state.wf(),
    ensures
        state.step(now, event).0.wf(),
{
    let next = state.step(now, event).0;
    let cadence = state.policy.cadence_ms;
    if state.phase is Waiting && event is Woke && next.phase is Attempting {
        let elapsed = state.elapsed_at(now);
        assert(state.resume >= state.last_attempt + cadence);
        assert((next.attempts - 1) * cadence <= next.last_attempt) by (nonlinear_arith)
            requires
                next.attempts - 1 <= state.attempts,
                state.attempts >= 1,
                cadence >= 0,
                (state.attempts - 1) * cadence <= state.last_attempt,
                state.last_attempt + cadence <= next.last_attempt,
        ;
    }
}

/// At most one attempt is under way at any time. The prober asks for an
/// attempt only while none is under way; from then on one is under way, and
/// the prober asks for nothing, until the end of that attempt is reported.
pub proof fn lemma_one_attempt_at_a_time(state: ProberState, now: u64, event: ProbeEvent)
    ensures
        ({
            let (next, action) = state.step(now, event);
            &&& action is Attempt ==> !(state.phase is Attempting) && next.phase is Attempting
            &&& state.phase is Attempting && !(event is AttemptFinished) ==> next == state
                && action is Nothing
            &&& state.phase is Attempting && event is AttemptFinished ==> !(next.phase
                is Attempting) && !(action is Attempt)
            &&& next.phase is Attempting ==> state.phase is Attempting || action is Attempt
        }),
{
}

/// The prober counts the attempts that it asks for: with a positive cadence
/// each one adds one to the count, and nothing else changes it.
pub proof fn lemma_attempts_are_counted(state: ProberState, now: u64, event: ProbeEvent)
    requires
        state.wf(),
        state.policy.cadence_ms > 0,
    ensures
        ({
            let (next, action) = state.step(now, event);
            next.attempts == if action is Attempt {
                state.attempts + 1
            } else {
                state.attempts as int
            }
        }),
{
    let (next, action) = state.step(now, event);
    if action is Attempt && state.phase is Waiting {
        let cadence = state.policy.cadence_ms;
        assert(state.attempts <= state.last_attempt + cadence) by (nonlinear_arith)
            requires
                (state.attempts - 1) * cadence <= state.last_attempt,
                cadence >= 1,
                state.attempts >= 1,
        ;
    }
}

/// With timeout `T` and a positive cadence `C`, the prober asks for at most
/// `ceil(T / C) + 1` attempts.
pub proof fn lemma_attempts_are_bounded(state: ProberState)
    requires
        state.wf(),
        state.policy.cadence_ms > 0,
    ensures
        state.attempts <= attempts_that_fit(
            state.policy.timeout_ms as int,
            state.policy.cadence_ms as int,
        ) + 1,
{
    let timeout = state.policy.timeout_ms as int;
    let cadence = state.policy.cadence_ms as int;
    lemma_div_pos_is_pos(timeout + cadence - 1, cadence);
    if state.attempts >= 1 {
        let before = state.attempts - 1;
        assert(before * cadence <= state.last_attempt);
        assert(cadence * before == before * cadence) by (nonlinear_arith);
        lemma_div_multiples_vanish(before, cadence);
        lemma_div_is_ordered(cadence * before, timeout + cadence - 1, cadence);
    }
}

/// A response that shows the backend alive ends probing with `Ready`: the
/// first such response does, whatever came of earlier attempts and however
/// late it is.
pub proof fn lemma_alive_response_is_ready(state: ProberState, now: u64, result: AttemptResult)
    requires
        state.phase is Attempting,
        shows_alive(result),
    ensures
        state.step(now, ProbeEvent::AttemptFinished(result)).1 == ProbeAction::Finish(
            ReadinessOutcome::Ready,
        ),
        state.step(now, ProbeEvent::AttemptFinished(result)).0.phase == ProbePhase::Finished(
            ReadinessOutcome::Ready,
        ),
{
}

/// `Ready` is found by nothing but a response that shows the backend alive.
pub proof fn lemma_ready_only_when_alive(state: ProberState, now: u64, event: ProbeEvent)
    requires
        state.step(now, event).1 == ProbeAction::Finish(ReadinessOutcome::Ready),
    ensures
        state.phase is Attempting,
        event matches ProbeEvent::AttemptFinished(result) && shows_alive(result),
{
}

/// Once the timeout has run out, the report that the prober waits for ends
/// probing with `TimedOut`, unless it is a response that shows the backend
/// alive.
pub proof fn lemma_timeout_ends_probing(state: ProberState, now: u64, event: ProbeEvent)
    requires
        state.pending(),
        state.awaits(event),
        state.elapsed_at(now) >= state.policy.timeout_ms,
        !(event matches ProbeEvent::AttemptFinished(result) && shows_alive(result)),
    ensures
        state.step(now, event).1 == ProbeAction::Finish(ReadinessOutcome::TimedOut),
        state.step(now, event).0.phase == ProbePhase::Finished(ReadinessOutcome::TimedOut),
{
}

/// `TimedOut` is found only once the timeout has run out.
pub proof fn lemma_timed_out_only_after_timeout(state: ProberState, now: u64, event: ProbeEvent)
    requires
        state.step(now, event).1 == ProbeAction::Finish(ReadinessOutcome::TimedOut),
    ensures
        state.step(now, event).0.elapsed >= state.policy.timeout_ms,
{
}

/// What the prober asks for is over by the time that `due` gives: an attempt
/// when its own timeout runs out, a wait after its length.
pub proof fn lemma_due_follows_action(state: ProberState, now: u64, event: ProbeEvent)
    requires
        state.wf(),
    ensures
        ({
            let (next, action) = state.step(now, event);
            match action {
                ProbeAction::Attempt { timeout_ms } => next.due() == next.elapsed + timeout_ms
                    && timeout_ms == state.policy.attempt_timeout_ms,
                ProbeAction::Wait { ms } => next.due() == next.elapsed + ms,
                ProbeAction::Finish(_) => !next.pending(),
                ProbeAction::Nothing => next == state,
            }
        }),
{
}

/// Where every attempt keeps to its own timeout and every wait to its
/// length, each report reaches the prober within the overall timeout and one
/// attempt's timeout of the start: no attempt begins at or after the overall
/// timeout, and no wait goes beyond it. So the outcome, `TimedOut` included,
/// is found within that time.
pub proof fn lemma_reports_are_in_time(state: ProberState, now: u64)
    requires
        state.wf(),
        state.pending(),
        now - state.started_at <= state.due(),
    ensures
        state.due() <= state.policy.timeout_ms + state.policy.attempt_timeout_ms,
        state.elapsed_at(now) <= state.policy.timeout_ms + state.policy.attempt_timeout_ms,
{
}

/// The outcome is found once: with it probing is over, and from then on no
/// event changes the prober or calls for anything.
pub proof fn lemma_outcome_is_found_once(
    state: ProberState,
    now: u64,
    event: ProbeEvent,
    later: u64,
    another: ProbeEvent,
)
    requires
        state.step(now, event).1 is Finish,
    ensures
        ({
            let (next, action) = state.step(now, event);
            &&& state.awaits(event)
            &&& next.phase == ProbePhase::Finished(action->Finish_0)
            &&& next.step(later, another) == (next, ProbeAction::Nothing)
        }),
{
}

/// Against a backend that never shows itself alive, probing ends, and it
/// ends in time. Where the cadence is positive and the caller keeps its side
/// (each attempt ends within its own timeout, each wait on time), the prober
/// takes in no more reports than `reports_left` allows, so it cannot be kept
/// from its outcome; the outcome, once found, is `TimedOut`; and the prober
/// sees no time later than the overall timeout and one attempt's timeout
/// after the start.
pub proof fn lemma_silence_times_out(state: ProberState, reports: Seq<(u64, ProbeEvent)>)
    requires
        state.wf(),
        state.policy.cadence_ms > 0,
        state.kept_all(reports),
        state.elapsed <= state.policy.timeout_ms + state.policy.attempt_timeout_ms,
        !(state.phase is Finished),
    ensures
        reports.len() <= state.reports_left(),
        state.after_all(reports).wf(),
        state.after_all(reports).elapsed <= state.policy.timeout_ms
            + state.policy.attempt_timeout_ms,
        state.after_all(reports).phase is Finished ==> state.after_all(reports).phase
            == ProbePhase::Finished(ReadinessOutcome::TimedOut),
    decreases reports.len(),
{
    lemma_attempts_are_bounded(state);
    if reports.len() > 0 {
        let (now, event) = reports[0];
        let (next, action) = state.step(now, event);
        let rest = reports.drop_first();
        lemma_step_keeps_wf(state, now, event);
        lemma_attempts_are_counted(state, now, event);
        lemma_attempts_are_bounded(next);
        assert(next.kept_all(rest));
        if next.phase is Finished {
            if rest.len() > 0 {
                assert(next.kept(rest[0].0, rest[0].1));
            }
            assert(next.after_all(rest) == next);
        } else {
            lemma_silence_times_out(next, rest);
        }
    }
}

} // verus!
