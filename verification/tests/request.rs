use sysenix::ai::Point;
use sysenix::request::{begin, instruction, step, Action, Event, Phase, RequestError};

#[test]
fn instruction_is_trimmed() {
    assert_eq!(instruction("  create an apple account \n").ok(), Some("create an apple account"));
    assert_eq!(instruction("open Safari").ok(), Some("open Safari"));
}

#[test]
fn empty_instruction_is_refused() {
    assert!(matches!(instruction(""), Err(RequestError::EmptyInstruction)));
    assert!(matches!(instruction(" \t\n "), Err(RequestError::EmptyInstruction)));
    assert_eq!(RequestError::EmptyInstruction.message(), "Instruction must not be empty.");
}

#[test]
fn loop_runs_capture_reason_ground_click_wait() {
    let (phase, action) = begin();
    assert!(matches!(phase, Phase::Capturing));
    assert!(matches!(action, Action::Capture));
    let (phase, action) = step(phase, Event::Captured);
    assert!(matches!(action, Action::Reason));
    let (phase, action) = step(phase, Event::Reasoned(Some("Sign In button".to_string())));
    assert!(matches!(&action, Action::Ground(t) if t == "Sign In button"));
    let (phase, action) = step(phase, Event::Grounded(Point { x: 12, y: 34 }));
    assert!(matches!(action, Action::Click(Point { x: 12, y: 34 })));
    let (phase, action) = step(phase, Event::Clicked);
    assert!(matches!(action, Action::Wait(2000)));
    let (phase, action) = step(phase, Event::Waited);
    assert!(matches!(phase, Phase::Capturing));
    assert!(matches!(action, Action::Capture));
}

#[test]
fn loop_stops_when_reasoning_has_no_target() {
    let (phase, _) = step(Phase::Capturing, Event::Captured);
    let (phase, action) = step(phase, Event::Reasoned(None));
    assert!(matches!(phase, Phase::Finished));
    assert!(matches!(action, Action::Stop));
    assert!(!phase.accepts(&Event::Captured));
}

#[test]
fn each_phase_accepts_only_its_event() {
    assert!(Phase::Capturing.accepts(&Event::Captured));
    assert!(!Phase::Capturing.accepts(&Event::Clicked));
    assert!(Phase::Reasoning.accepts(&Event::Reasoned(None)));
    assert!(Phase::Grounding.accepts(&Event::Grounded(Point { x: 0, y: 0 })));
    assert!(!Phase::Grounding.accepts(&Event::Waited));
    assert!(Phase::Clicking.accepts(&Event::Clicked));
    assert!(Phase::Waiting.accepts(&Event::Waited));
}
