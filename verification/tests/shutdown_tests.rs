use strobmock::shutdown::{
    shutdown_on_interrupt, wait_start, wait_step, WaitAction, WaitEvent, WaitPhase,
    SHUTDOWN_FLAG_INITIAL,
};

fn run(events: &[WaitEvent]) -> (WaitPhase, WaitAction) {
    let (mut phase, mut action) = wait_start();
    for ev in events {
        let next = wait_step(phase, *ev);
        phase = next.0;
        action = next.1;
    }
    (phase, action)
}

#[test]
fn test_wait_starts_by_reading_the_flag() {
    assert_eq!(wait_start(), (WaitPhase::ReadingFlag, WaitAction::ReadFlag));
    assert!(!SHUTDOWN_FLAG_INITIAL);
}

#[test]
fn test_wait_resolves_at_once_when_flag_already_set() {
    assert_eq!(run(&[WaitEvent::FlagRead(true)]), (WaitPhase::Resolved, WaitAction::Resolve));
}

#[test]
fn test_wait_waits_while_flag_clear() {
    assert_eq!(
        run(&[WaitEvent::FlagRead(false)]),
        (WaitPhase::AwaitingChange, WaitAction::AwaitChange)
    );
    assert_eq!(
        run(&[WaitEvent::FlagRead(false), WaitEvent::Changed, WaitEvent::FlagRead(false)]),
        (WaitPhase::AwaitingChange, WaitAction::AwaitChange)
    );
}

#[test]
fn test_wait_resolves_after_change_to_true() {
    assert_eq!(
        run(&[WaitEvent::FlagRead(false), WaitEvent::Changed, WaitEvent::FlagRead(true)]),
        (WaitPhase::Resolved, WaitAction::Resolve)
    );
}

#[test]
fn test_wait_resolves_when_sender_dropped() {
    assert_eq!(
        run(&[WaitEvent::FlagRead(false), WaitEvent::SenderDropped]),
        (WaitPhase::Resolved, WaitAction::Resolve)
    );
}

#[test]
fn test_wait_stays_resolved() {
    assert_eq!(
        run(&[WaitEvent::FlagRead(true), WaitEvent::FlagRead(false), WaitEvent::Changed]),
        (WaitPhase::Resolved, WaitAction::Resolve)
    );
}

#[test]
fn test_interrupt_publishes_shutdown() {
    assert_eq!(shutdown_on_interrupt::<String>(Ok(())), Some(true));
    assert_eq!(shutdown_on_interrupt::<String>(Err("no handler".to_string())), None);
}
