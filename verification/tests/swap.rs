use liftinstall::swap::{
    after_attempt, plan, replay, Decision, Purpose, Run, Startup, MAX_ATTEMPTS, RETRY_DELAY_MS,
    SETTLE_DELAY_MS,
};

#[test]
fn protocol_constants() {
    assert_eq!(MAX_ATTEMPTS, 5);
    assert_eq!(RETRY_DELAY_MS, 3000);
    assert_eq!(SETTLE_DELAY_MS, 3000);
}

#[test]
fn success_ends_the_attempts() {
    assert_eq!(after_attempt(Purpose::Swap, 1, true), Decision::Done);
    assert_eq!(after_attempt(Purpose::Cleanup, 5, true), Decision::Done);
}

#[test]
fn failure_before_the_last_attempt_is_retried() {
    for attempt in 1..5 {
        assert_eq!(
            after_attempt(Purpose::Swap, attempt, false),
            Decision::Retry { delay_ms: 3000 }
        );
        assert_eq!(
            after_attempt(Purpose::Cleanup, attempt, false),
            Decision::Retry { delay_ms: 3000 }
        );
    }
}

#[test]
fn fifth_failure_of_a_swap_is_fatal() {
    assert_eq!(after_attempt(Purpose::Swap, 5, false), Decision::Fatal);
}

#[test]
fn fifth_failure_of_a_cleanup_is_given_up() {
    assert_eq!(after_attempt(Purpose::Cleanup, 5, false), Decision::GiveUp);
}

#[test]
fn swap_succeeds_on_the_fifth_attempt() {
    let run = replay(Purpose::Swap, &vec![false, false, false, false, true]);
    assert_eq!(run, Run { end: Decision::Done, attempts: 5, waited_ms: 12000 });
}

#[test]
fn swap_is_fatal_after_five_failures() {
    let run = replay(Purpose::Swap, &vec![false, false, false, false, false]);
    assert_eq!(run, Run { end: Decision::Fatal, attempts: 5, waited_ms: 12000 });
}

#[test]
fn a_sixth_attempt_is_never_made() {
    let run = replay(Purpose::Swap, &vec![false, false, false, false, false, true]);
    assert_eq!(run, Run { end: Decision::Fatal, attempts: 5, waited_ms: 12000 });
}

#[test]
fn swap_stops_at_the_first_success() {
    let run = replay(Purpose::Swap, &vec![true, false, true]);
    assert_eq!(run, Run { end: Decision::Done, attempts: 1, waited_ms: 0 });
    let run = replay(Purpose::Swap, &vec![false, false, true, true]);
    assert_eq!(run, Run { end: Decision::Done, attempts: 3, waited_ms: 6000 });
}

#[test]
fn cleanup_gives_up_without_failing() {
    let run = replay(Purpose::Cleanup, &vec![false; 5]);
    assert_eq!(run, Run { end: Decision::GiveUp, attempts: 5, waited_ms: 12000 });
}

#[test]
fn an_empty_script_fails_every_attempt() {
    let run = replay(Purpose::Cleanup, &Vec::new());
    assert_eq!(run, Run { end: Decision::GiveUp, attempts: 5, waited_ms: 12000 });
}

#[test]
fn a_swap_target_comes_first() {
    match plan(Some("/opt/app/tool".to_string()), true, true, true) {
        Startup::Swap { target } => assert_eq!(target, "/opt/app/tool"),
        other => panic!("unexpected start: {:?}", other),
    }
}

#[test]
fn a_normal_start_restores_and_cleans_as_needed() {
    match plan(None, true, false, true) {
        Startup::Run { restore_arguments, clean_leftover } => {
            assert!(restore_arguments);
            assert!(!clean_leftover);
        }
        other => panic!("unexpected start: {:?}", other),
    }
    match plan(None, false, true, true) {
        Startup::Run { restore_arguments, clean_leftover } => {
            assert!(!restore_arguments);
            assert!(clean_leftover);
        }
        other => panic!("unexpected start: {:?}", other),
    }
    match plan(None, false, true, false) {
        Startup::Run { clean_leftover, .. } => assert!(!clean_leftover),
        other => panic!("unexpected start: {:?}", other),
    }
}
