use vstd::prelude::*;

use crate::ai::Point;
use crate::text::{trim, trim_spec};

verus! {

/// Why a request is refused before any work starts.
pub enum RequestError {
    EmptyInstruction,
}

impl RequestError {
    pub open spec fn message_spec(&self) -> Seq<char> {
        "Instruction must not be empty."@
    }

    /// The message shown for the error.
    pub fn message(&self) -> (m: &str)
        ensures
            m@ == self.message_spec(),
    {
        "Instruction must not be empty."
    }
}

/// The instruction that a user's input asks for: the input without
/// surrounding white space, which must not be empty.
pub fn instruction(input: &str) -> (r: Result<&str, RequestError>)
    ensures
        match r {
            Ok(text) => text@ == trim_spec(input@) && text@.len() > 0,
            Err(_) => trim_spec(input@).len() == 0,
        },
{
    let text = trim(input);
    if text.is_empty() {
        Err(RequestError::EmptyInstruction)
    } else {
        Ok(text)
    }
}

/// Where the request loop stands.
pub enum Phase {
    /// A screenshot is being taken.
    Capturing,
    /// The reasoning model chooses the next target.
    Reasoning,
    /// The grounding model locates the target.
    Grounding,
    /// The target is being clicked.
    Clicking,
    /// The screen is given time to update.
    Waiting,
    /// The reasoning model has no further target.
    Finished,
}

/// What the last action brought.
pub enum Event {
    Captured,
    /// The reasoning model's next target, or nothing when the task is done.
    Reasoned(Option<String>),
    Grounded(Point),
    Clicked,
    Waited,
}

/// What to do next.
pub enum Action {
    Capture,
    Reason,
    /// Locate the described target.
    Ground(String),
    /// Click this pixel of the last screenshot.
    Click(Point),
    /// Wait this many milliseconds.
    Wait(u64),
    Stop,
}

/// How long the loop lets the screen update after a click, in milliseconds.
pub const SETTLE_MILLIS: u64 = 2000;

/// Whether `event` is what the action of `phase` brings.
pub open spec fn event_fits(phase: Phase, event: Event) -> bool {
    match phase {
        Phase::Capturing => event is Captured,
        Phase::Reasoning => event is Reasoned,
        Phase::Grounding => event is Grounded,
        Phase::Clicking => event is Clicked,
        Phase::Waiting => event is Waited,
        Phase::Finished => false,
    }
}

/// The loop's step: screenshot, reasoning, grounding, click, wait, and again,
/// until reasoning has no target left.
pub open spec fn step_spec(phase: Phase, event: Event) -> (Phase, Action) {
    match event {
        Event::Captured => (Phase::Reasoning, Action::Reason),
        Event::Reasoned(None) => (Phase::Finished, Action::Stop),
        Event::Reasoned(Some(target)) => (Phase::Grounding, Action::Ground(target)),
        Event::Grounded(point) => (Phase::Clicking, Action::Click(point)),
        Event::Clicked => (Phase::Waiting, Action::Wait(SETTLE_MILLIS)),
        Event::Waited => (Phase::Capturing, Action::Capture),
    }
}

/// Where the loop starts: with a screenshot.
pub fn begin() -> (r: (Phase, Action))
    ensures
        r == (Phase::Capturing, Action::Capture),
{
    (Phase::Capturing, Action::Capture)
}

impl Phase {
    /// Whether `event` is what the action of this phase brings.
    pub fn accepts(&self, event: &Event) -> (b: bool)
        ensures
            b == event_fits(*self, *event),
    {
        match self {
            Phase::Capturing => matches!(event, Event::Captured),
            Phase::Reasoning => matches!(event, Event::Reasoned(_)),
            Phase::Grounding => matches!(event, Event::Grounded(_)),
            Phase::Clicking => matches!(event, Event::Clicked),
            Phase::Waiting => matches!(event, Event::Waited),
            Phase::Finished => false,
        }
    }
}

/// The next phase and action after `event` has come in `phase`.
pub fn step(phase: Phase, event: Event) -> (r: (Phase, Action))
    requires
        event_fits(phase, event),
    ensures
        r == step_spec(phase, event),
{
    match event {
        Event::Captured => (Phase::Reasoning, Action::Reason),
        Event::Reasoned(None) => (Phase::Finished, Action::Stop),
        Event::Reasoned(Some(target)) => (Phase::Grounding, Action::Ground(target)),
        Event::Grounded(point) => (Phase::Clicking, Action::Click(point)),
        Event::Clicked => (Phase::Waiting, Action::Wait(SETTLE_MILLIS)),
        Event::Waited => (Phase::Capturing, Action::Capture),
    }
}

/// Whether `event` is what performing `action` brings.
pub open spec fn brings(action: Action, event: Event) -> bool {
    match action {
        Action::Capture => event is Captured,
        Action::Reason => event is Reasoned,
        Action::Ground(_) => event is Grounded,
        Action::Click(_) => event is Clicked,
        Action::Wait(_) => event is Waited,
        Action::Stop => false,
    }
}

/// The loop can always go on: after each step, what performing the new action
/// brings is accepted by the new phase, and only the final phase accepts
/// nothing. The same holds where the loop begins.
pub proof fn lemma_step_keeps_loop_going(phase: Phase, event: Event, next: Event)
    requires
        event_fits(phase, event),
    ensures
        brings(step_spec(phase, event).1, next) ==> event_fits(step_spec(phase, event).0, next),
        event_fits(step_spec(phase, event).0, next) ==> brings(step_spec(phase, event).1, next),
        brings(Action::Capture, next) ==> event_fits(Phase::Capturing, next),
{
}

/// The loop stops exactly when reasoning reports no further target; a click
/// only ever follows grounding, at the point that grounding found; the model
/// is only asked to ground the target that reasoning named.
pub proof fn lemma_step_laws(phase: Phase, event: Event)
    requires
        event_fits(phase, event),
    ensures
        step_spec(phase, event).1 is Stop <==> (phase is Reasoning && event == Event::Reasoned(None)),
        step_spec(phase, event).0 is Finished <==> step_spec(phase, event).1 is Stop,
        step_spec(phase, event).1 matches Action::Click(p) ==> phase is Grounding && event
            == Event::Grounded(p),
        step_spec(phase, event).1 matches Action::Ground(t) ==> phase is Reasoning && event
            == Event::Reasoned(Some(t)),
        event_fits(step_spec(phase, event).0, event) ==> false,
{
}

} // verus!
