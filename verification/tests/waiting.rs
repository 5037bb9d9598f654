use cloudroom::fault::FaultKind;
use cloudroom::runtime::linux::{
    freeze, FreezeStep, Freezing, Patience, Verdict, Wait,
};

fn waits(verdict: Verdict) -> Option<u64> {
    match verdict {
        Verdict::Wait { limit } => limit,
        other => panic!("{other:?}"),
    }
}

fn fails(verdict: Verdict) -> (FaultKind, String) {
    match verdict {
        Verdict::Fail(fault) => (fault.kind, fault.message),
        other => panic!("{other:?}"),
    }
}

#[test]
fn pauses_do_not_count() {
    let mut p = Patience::new(30_000, false, true);
    assert_eq!(p.limit(), Some(30_000));
    assert_eq!(waits(p.step(Wait::Changed { paused: true, ms: 10_000 })), None);
    assert_eq!(waits(p.step(Wait::Passed { ms: 3_600_000 })), None);
    assert_eq!(waits(p.step(Wait::Changed { paused: true, ms: 3_600_000 })), None);
    assert_eq!(waits(p.step(Wait::Changed { paused: false, ms: 3_600_000 })), Some(20_000));
    assert_eq!(waits(p.step(Wait::Passed { ms: 19_999 })), Some(1));
    assert_eq!(
        fails(p.step(Wait::Passed { ms: 1 })),
        (FaultKind::Other, "harness response timed out; outcome uncertain".to_owned())
    );
}

#[test]
fn time_that_is_up_waits_for_the_end_of_a_pause() {
    let mut p = Patience::new(100, false, true);
    assert_eq!(waits(p.step(Wait::Changed { paused: true, ms: 500 })), None);
    assert!(matches!(p.step(Wait::Answered), Verdict::Answer));
    assert_eq!(waits(p.step(Wait::Changed { paused: false, ms: 500 })), Some(0));
}

#[test]
fn waiting_fails_in_three_ways() {
    let mut p = Patience::new(10, false, false);
    assert_eq!(
        fails(p.step(Wait::Lost)),
        (FaultKind::Other, "harness response lost; outcome uncertain".to_owned())
    );
    assert_eq!(
        fails(p.step(Wait::OwnerLost)),
        (FaultKind::Other, "workload owner lost".to_owned())
    );
    assert_eq!(
        fails(p.step(Wait::Passed { ms: 10 })),
        (FaultKind::TimedOut, "harness response timed out; outcome uncertain".to_owned())
    );
}

#[test]
fn only_who_has_frozen_a_group_thaws_it() {
    let mut paused = false;
    assert!(matches!(freeze(&mut paused, false, Freezing::Asked), FreezeStep::Done));
    assert!(matches!(freeze(&mut paused, true, Freezing::Asked), FreezeStep::Tell("1")));
    assert!(!paused);
    assert!(matches!(freeze(&mut paused, true, Freezing::Told), FreezeStep::Look));
    assert!(paused);
    let seen = |text: &str| Freezing::Seen(text.to_owned());
    assert!(matches!(freeze(&mut paused, true, seen("frozen 0\n")), FreezeStep::Look));
    assert!(matches!(freeze(&mut paused, true, seen("populated 1\nfrozen 1\n")), FreezeStep::Done));
    assert!(paused);
    assert!(matches!(freeze(&mut paused, false, Freezing::Asked), FreezeStep::Tell("0")));
    assert!(matches!(freeze(&mut paused, false, Freezing::Told), FreezeStep::Look));
    assert!(paused);
    match freeze(&mut paused, false, Freezing::Late) {
        FreezeStep::Fail(fault) => assert_eq!(fault.message, "workload freeze state unconfirmed"),
        other => panic!("{other:?}"),
    }
    assert!(paused);
    assert!(matches!(freeze(&mut paused, false, seen("frozen 0\n")), FreezeStep::Done));
    assert!(!paused);
}
