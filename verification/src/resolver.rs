//! The endpoint resolver: where the backend will serve.
//!
//! With a fixed port the endpoint is known at once. Otherwise the resolver
//! reads the backend's output in order, and the first line of standard output
//! that announces a port settles the endpoint; where the backend exits before
//! such a line, or could not be started, resolution has failed. The state
//! moves once and never back.

use vstd::prelude::*;
use crate::announcement::address_marker;
use crate::announcement::announced_port;
use crate::announcement::first_at;
use crate::announcement::lemma_malformed_line_announces_nothing;
use crate::announcement::parse_announcement;
use crate::supervisor::OutputEvent;
use crate::text::all_digits;
use crate::text::ascii_chars;
use crate::text::decimal;
use crate::text::decimal_digits;
use crate::text::is_digit;
use crate::text::is_space;
use crate::text::push_digits;

verus! {

/// What is known of the backend's endpoint.
#[derive(Clone, Debug, PartialEq, Eq)]
pub enum EndpointState {
    /// Not known yet.
    Unresolved,
    /// The backend serves at this URL.
    Resolved(String),
    /// It will never be known, for the reason given.
    Failed(String),
}

/// An endpoint state as a plain value.
pub enum EndpointView {
    Unresolved,
    Resolved(Seq<char>),
    Failed(Seq<char>),
}

impl View for EndpointState {
    type V = EndpointView;

    open spec fn view(&self) -> EndpointView {
        match self {
            EndpointState::Unresolved => EndpointView::Unresolved,
            EndpointState::Resolved(url) => EndpointView::Resolved(url@),
            EndpointState::Failed(reason) => EndpointView::Failed(reason@),
        }
    }
}

/// The URL of the backend on a port that is written as `port`.
pub open spec fn endpoint_url(port: Seq<u8>) -> Seq<char> {
    "http://localhost:"@ + ascii_chars(port)
}

/// Why resolution fails when the backend exits without an announcement.
pub open spec fn never_announced() -> Seq<char> {
    "the backend exited before it announced its port"@
}

/// Why resolution fails when the backend could not be started.
pub open spec fn never_started() -> Seq<char> {
    "the backend could not be started"@
}

/// Whether an event settles an endpoint that is not known yet: a line of
/// standard output that announces a port does, and so does the news that the
/// backend has exited or could not be started.
pub open spec fn settles(event: OutputEvent) -> bool {
    match event {
        OutputEvent::Stdout(line) => announced_port(line@) is Some,
        OutputEvent::Stderr(_) => false,
        OutputEvent::SpawnError(_) => true,
        OutputEvent::Terminated { .. } => true,
    }
}

impl EndpointView {
    /// The state after one more event of the backend's output.
    pub open spec fn after(self, event: OutputEvent) -> EndpointView {
        match self {
            EndpointView::Unresolved => match event {
                OutputEvent::Stdout(line) => match announced_port(line@) {
                    Some(port) => EndpointView::Resolved(endpoint_url(port)),
                    None => EndpointView::Unresolved,
                },
                OutputEvent::Stderr(_) => EndpointView::Unresolved,
                OutputEvent::SpawnError(_) => EndpointView::Failed(never_started()),
                OutputEvent::Terminated { .. } => EndpointView::Failed(never_announced()),
            },
            _ => self,
        }
    }

    /// The state after a run of events, taken in order.
    pub open spec fn after_all(self, events: Seq<OutputEvent>) -> EndpointView
        decreases events.len(),
    {
        if events.len() == 0 {
            self
        } else {
            self.after(events[0]).after_all(events.drop_first())
        }
    }

    /// How often the state changes over a run of events.
    pub open spec fn transitions(self, events: Seq<OutputEvent>) -> nat
        decreases events.len(),
    {
        if events.len() == 0 {
            0
        } else {
            let next = self.after(events[0]);
            let moved: nat = if next == self {
                0
            } else {
                1
            };
            moved + next.transitions(events.drop_first())
        }
    }
}

/// Writes the URL of the backend on the port that `port` spells.
fn local_url(port: &[u8]) -> (url: String)
    requires
        all_digits(port@),
    ensures
        url@ == endpoint_url(port@),
{
    let mut url = String::from_str("http://localhost:");
    push_digits(&mut url, port);
    url
}

/// Resolves the endpoint of a backend that listens on a fixed port. Nothing
/// of the backend's output is read for it.
pub fn resolve_static(port: u16) -> (state: EndpointState)
    ensures
        state@ == EndpointView::Resolved(endpoint_url(decimal(port as nat))),
{
    let digits = decimal_digits(port);
    EndpointState::Resolved(local_url(digits.as_slice()))
}

impl EndpointState {
    /// Takes in one more event of the backend's output, and tells whether the
    /// state has changed.
    pub fn observe(&mut self, event: &OutputEvent) -> (changed: bool)
        ensures
            final(self)@ == old(self)@.after(*event),
            changed == (final(self)@ != old(self)@),
            changed ==> old(self)@ is Unresolved && settles(*event),
    {
        match self {
            EndpointState::Unresolved => {},
            _ => {
                return false;
            },
        }
        match event {
            OutputEvent::Stdout(line) => match parse_announcement(line.as_slice()) {
                Some(port) => {
                    *self = EndpointState::Resolved(local_url(port.as_slice()));
                    true
                },
                None => false,
            },
            OutputEvent::Stderr(_) => false,
            OutputEvent::SpawnError(_) => {
                *self = EndpointState::Failed(String::from_str("the backend could not be started"));
                true
            },
            OutputEvent::Terminated { .. } => {
                *self = EndpointState::Failed(
                    String::from_str("the backend exited before it announced its port"),
                );
                true
            },
        }
    }
}

/// Resolves the endpoint from the backend's output as a whole: the first
/// line of standard output that announces a port decides, unless the output
/// ends before it.
pub fn resolve_from_output(events: &[OutputEvent]) -> (state: EndpointState)
    ensures
        state@ == EndpointView::Unresolved.after_all(events@),
{
    let mut state = EndpointState::Unresolved;
    let mut i: usize = 0;
    assert(events@.subrange(0, events@.len() as int) =~= events@);
    while i < events.len()
        invariant
            0 <= i <= events.len(),
            state@.after_all(events@.subrange(i as int, events@.len() as int))
                == EndpointView::Unresolved.after_all(events@),
        decreases events.len() - i,
    {
        let ghost rest = events@.subrange(i as int, events@.len() as int);
        assert(rest.drop_first() =~= events@.subrange(i + 1, events@.len() as int));
        assert(rest[0] == events@[i as int]);
        state.observe(&events[i]);
        i += 1;
    }
    assert(events@.subrange(i as int, events@.len() as int).len() == 0);
    state
}

/// Reading a run of events and then another is reading the two as one.
pub proof fn lemma_after_all_concat(
    state: EndpointView,
    first: Seq<OutputEvent>,
    second: Seq<OutputEvent>,
)
    ensures
        state.after_all(first + second) == state.after_all(first).after_all(second),
        state.transitions(first + second) == state.transitions(first) + state.after_all(
            first,
        ).transitions(second),
    decreases first.len(),
{
    if first.len() == 0 {
        assert(first + second =~= second);
    } else {
        assert((first + second).drop_first() =~= first.drop_first() + second);
        lemma_after_all_concat(state.after(first[0]), first.drop_first(), second);
    }
}

/// There is no way back: once the endpoint is resolved or has failed, no
/// event changes it.
pub proof fn lemma_settled_state_stays(state: EndpointView, events: Seq<OutputEvent>)
    requires
        !(state is Unresolved),
    ensures
        state.after_all(events) == state,
        state.transitions(events) == 0,
    decreases events.len(),
{
    if events.len() > 0 {
        lemma_settled_state_stays(state, events.drop_first());
    }
}

/// The state moves at most once over any output, and exactly once where it
/// has left `Unresolved`.
pub proof fn lemma_one_transition(state: EndpointView, events: Seq<OutputEvent>)
    ensures
        state.transitions(events) == if state.after_all(events) == state {
            0nat
        } else {
            1nat
        },
        state.after_all(events) != state ==> state is Unresolved,
    decreases events.len(),
{
    if events.len() > 0 {
        let next = state.after(events[0]);
        if next == state {
            lemma_one_transition(state, events.drop_first());
        } else {
            lemma_settled_state_stays(next, events.drop_first());
        }
    }
}

/// A line that holds the address marker without a proper port leaves the
/// state as it is, and the resolver reads on: where the port is missing,
/// where the token holds something other than a digit, and where no white
/// space ends the token.
pub proof fn lemma_malformed_line_keeps_scanning(state: EndpointView, line: Vec<u8>, at: int)
    requires
        first_at(line@, address_marker(), at),
        ({
            let start = at + address_marker().len();
            ||| start == line@.len()
            ||| is_space(line@[start])
            ||| exists|k: int|
                start <= k < line@.len() && !is_digit(line@[k]) && forall|j: int|
                    start <= j <= k ==> !is_space(#[trigger] line@[j])
            ||| forall|j: int| start <= j < line@.len() ==> !is_space(#[trigger] line@[j])
        }),
    ensures
        !settles(OutputEvent::Stdout(line)),
        state.after(OutputEvent::Stdout(line)) == state,
{
    lemma_malformed_line_announces_nothing(line@, at);
}

/// While no event settles the endpoint it stays unresolved.
pub proof fn lemma_unsettled_output_keeps_scanning(events: Seq<OutputEvent>)
    requires
        forall|i: int| 0 <= i < events.len() ==> !settles(#[trigger] events[i]),
    ensures
        EndpointView::Unresolved.after_all(events) == EndpointView::Unresolved,
        EndpointView::Unresolved.transitions(events) == 0,
    decreases events.len(),
{
    if events.len() > 0 {
        assert(!settles(events[0]));
        let rest = events.drop_first();
        assert forall|i: int| 0 <= i < rest.len() implies !settles(#[trigger] rest[i]) by {
            assert(rest[i] == events[i + 1]);
        }
        lemma_unsettled_output_keeps_scanning(rest);
    }
}

/// Where the backend exits before any line has announced a port, resolution
/// fails, once and for good, whatever follows.
pub proof fn lemma_exit_before_announcement_fails(
    before: Seq<OutputEvent>,
    exit: OutputEvent,
    rest: Seq<OutputEvent>,
)
    requires
        forall|i: int| 0 <= i < before.len() ==> !settles(#[trigger] before[i]),
        exit is Terminated,
    ensures
        EndpointView::Unresolved.after_all(before + seq![exit] + rest) == EndpointView::Failed(
            never_announced(),
        ),
        EndpointView::Unresolved.transitions(before + seq![exit] + rest) == 1,
{
    let start = EndpointView::Unresolved;
    let failed = EndpointView::Failed(never_announced());
    lemma_unsettled_output_keeps_scanning(before);
    lemma_after_all_concat(start, before, seq![exit]);
    assert(seq![exit].drop_first() =~= Seq::<OutputEvent>::empty());
    assert(start.after_all(seq![exit]) == start.after(exit).after_all(seq![exit].drop_first()));
    assert(start.after_all(before + seq![exit]) == failed);
    lemma_settled_state_stays(failed, rest);
    lemma_after_all_concat(start, before + seq![exit], rest);
    lemma_one_transition(start, before + seq![exit] + rest);
}

/// The first line of standard output that announces a port settles the
/// endpoint on that port, whatever follows.
pub proof fn lemma_first_announcement_resolves(
    before: Seq<OutputEvent>,
    line: Vec<u8>,
    rest: Seq<OutputEvent>,
)
    requires
        forall|i: int| 0 <= i < before.len() ==> !settles(#[trigger] before[i]),
        announced_port(line@) is Some,
    ensures
        EndpointView::Unresolved.after_all(before + seq![OutputEvent::Stdout(line)] + rest)
            == EndpointView::Resolved(endpoint_url(announced_port(line@)->0)),
        EndpointView::Unresolved.transitions(before + seq![OutputEvent::Stdout(line)] + rest)
            == 1,
{
    let start = EndpointView::Unresolved;
    let event = OutputEvent::Stdout(line);
    let resolved = EndpointView::Resolved(endpoint_url(announced_port(line@)->0));
    lemma_unsettled_output_keeps_scanning(before);
    lemma_after_all_concat(start, before, seq![event]);
    assert(seq![event].drop_first() =~= Seq::<OutputEvent>::empty());
    assert(start.after_all(seq![event]) == start.after(event).after_all(seq![event].drop_first()));
    assert(start.after_all(before + seq![event]) == resolved);
    lemma_settled_state_stays(resolved, rest);
    lemma_after_all_concat(start, before + seq![event], rest);
    lemma_one_transition(start, before + seq![event] + rest);
}

} // verus!
