use cloudroom::runtime::life::{remainder, Deed, Happening, Life, Remainder, SHUTDOWN_GRACE};

fn called(life: &mut Life) -> u64 {
    let id = match life.step(Happening::Call { allowed: true }) {
        Deed::WriteCall { id } => id,
        other => panic!("{other:?}"),
    };
    assert!(matches!(life.step(Happening::Called { waits: true, dispatched: false }), Deed::Wait));
    id
}

fn ends(deed: Deed) -> &'static str {
    match deed {
        Deed::End(why) => why,
        other => panic!("{other:?}"),
    }
}

#[test]
fn calls_are_numbered_and_answered_once() {
    let mut life = Life::new();
    assert!(life.takes_calls(false) && !life.takes_calls(true));
    let first = called(&mut life);
    let second = called(&mut life);
    assert_eq!((first, second), (1, 2));
    assert_eq!(life.pending, [1, 2]);
    let answer = Happening::Responded { closed: false, settles: Some(1) };
    assert!(matches!(life.step(answer), Deed::Settle { close_input: false, answers: Some(1) }));
    assert!(matches!(life.step(answer), Deed::Settle { close_input: false, answers: None }));
    assert_eq!(life.pending, [2]);
    assert!(matches!(life.step(Happening::Call { allowed: false }), Deed::RefuseCall));
    assert!(matches!(life.step(Happening::Call { allowed: true }), Deed::WriteCall { id: 3 }));
    assert!(matches!(life.step(Happening::Called { waits: true, dispatched: true }), Deed::AnswerNow));
    assert!(matches!(life.step(Happening::Called { waits: false, dispatched: true }), Deed::Wait));
    assert_eq!(life.pending, [2]);
    assert_eq!(ends(life.step(Happening::WriteFailed)), "harness stdin closed");
}

#[test]
fn processes_have_a_time_to_end() {
    let mut life = Life::new();
    assert!(matches!(life.step(Happening::Deadline), Deed::Wait));
    assert!(matches!(life.step(Happening::Stop { now: 100, frames: true }), Deed::SendClose));
    assert_eq!(life.deadline, Some(100 + SHUTDOWN_GRACE));
    assert!(matches!(life.step(Happening::Stop { now: 900, frames: true }), Deed::Wait));
    assert_eq!(life.deadline, Some(100 + SHUTDOWN_GRACE));
    assert!(!life.takes_calls(false));
    assert!(matches!(life.step(Happening::Call { allowed: true }), Deed::RefuseCall));
    let confirmed = Happening::Responded { closed: true, settles: None };
    assert!(matches!(life.step(confirmed), Deed::Settle { close_input: true, answers: None }));
    assert!(!life.input_open && !life.close_pending);
    assert!(matches!(life.step(confirmed), Deed::Settle { close_input: false, answers: None }));
    assert!(matches!(life.step(Happening::Read { count: Some(0) }), Deed::Wait));
    assert!(life.output_closed);
    assert_eq!(ends(life.step(Happening::Deadline)), "harness shutdown timed out");
    assert_eq!(ends(life.step(Happening::Exit)), "service stopped owned harness");
    let mut quiet = Life::new();
    assert!(matches!(quiet.step(Happening::Stop { now: 0, frames: false }), Deed::CloseInput));
    assert!(!quiet.input_open);
}

#[test]
fn lines_are_taken_in_steps() {
    let mut life = Life::new();
    assert!(matches!(life.step(Happening::Read { count: Some(3) }), Deed::Parse));
    assert!(matches!(life.step(Happening::Parsed { wrong: None }), Deed::Receive));
    assert!(matches!(life.step(Happening::Received { valid: true }), Deed::Tell));
    assert!(matches!(life.step(Happening::Told { taken: true }), Deed::Respond));
    assert!(matches!(life.step(Happening::Captured { valid: true }), Deed::TellHistory));
    assert!(matches!(life.step(Happening::HistoryTold { taken: true }), Deed::Wait));
    assert_eq!(ends(life.step(Happening::Parsed { wrong: Some("native output too large") })), "native output too large");
    assert_eq!(ends(life.step(Happening::Received { valid: false })), "invalid native state");
    assert_eq!(ends(life.step(Happening::Told { taken: false })), "recording owner disconnected");
    assert_eq!(ends(life.step(Happening::HistoryTold { taken: false })), "recording owner disconnected");
    assert_eq!(ends(life.step(Happening::Captured { valid: false })), "native history capture failed");
    assert_eq!(ends(life.step(Happening::Read { count: Some(0) })), "harness stdout closed");
    assert_eq!(ends(life.step(Happening::Read { count: None })), "harness stdout closed");
    assert_eq!(ends(life.step(Happening::Exit)), "harness process exited");
}

#[test]
fn what_is_left_is_read_to_its_end() {
    assert!(matches!(remainder(Some(1), false), Remainder::More));
    assert!(matches!(remainder(Some(0), true), Remainder::Later));
    assert!(matches!(remainder(Some(0), false), Remainder::Complete));
    assert!(matches!(remainder(None, true), Remainder::Failed));
}
