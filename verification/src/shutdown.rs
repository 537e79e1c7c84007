//! The shared shutdown signal: one interrupt listener publishes a flag,
//! and each server runs a watcher that resolves once the flag is set.
//!
//! The watcher alternates between reading the flag and awaiting a change
//! of it; the decisions between those awaits are the state machine below,
//! driven by the binary with what each await returned.

use vstd::prelude::*;

verus! {

/// The value the shared shutdown flag starts with: not shutting down.
pub const SHUTDOWN_FLAG_INITIAL: bool = false;

/// What the interrupt listener publishes on the shared flag once the
/// interrupt wait has returned: `true` when an interrupt was received, and
/// nothing when listening for it failed.
pub fn shutdown_on_interrupt<E>(outcome: Result<(), E>) -> (publish: Option<bool>)
    ensures
        outcome is Ok ==> publish == Some(true),
        outcome is Err ==> publish is None,
{
    match outcome {
        Ok(()) => Some(true),
        Err(_) => None,
    }
}

/// Where a shutdown watcher stands.
#[derive(Debug, Clone, Copy, PartialEq, Eq, Structural)]
pub enum WaitPhase {
    /// About to read (and mark as seen) the current flag.
    ReadingFlag,
    /// The flag was clear; waiting for the sender to change it.
    AwaitingChange,
    /// The watcher has resolved.
    Resolved,
}

/// What the watcher's last await returned.
#[derive(Debug, Clone, Copy, PartialEq, Eq, Structural)]
pub enum WaitEvent {
    /// The current value of the flag.
    FlagRead(bool),
    /// The sender published a new value.
    Changed,
    /// The sender was dropped: no value will ever come.
    SenderDropped,
}

/// What the watcher does next.
#[derive(Debug, Clone, Copy, PartialEq, Eq, Structural)]
pub enum WaitAction {
    /// Read the current flag and report it as [`WaitEvent::FlagRead`].
    ReadFlag,
    /// Await a change, reported as [`WaitEvent::Changed`] or
    /// [`WaitEvent::SenderDropped`].
    AwaitChange,
    /// Return: shutdown may proceed.
    Resolve,
}

/// The action that a phase performs.
pub open spec fn phase_action(phase: WaitPhase) -> WaitAction {
    match phase {
        WaitPhase::ReadingFlag => WaitAction::ReadFlag,
        WaitPhase::AwaitingChange => WaitAction::AwaitChange,
        WaitPhase::Resolved => WaitAction::Resolve,
    }
}

/// The phase that follows `phase` once `event` has been observed. An event
/// that the phase does not await leaves it where it is.
pub open spec fn wait_next(phase: WaitPhase, event: WaitEvent) -> WaitPhase {
    match (phase, event) {
        (WaitPhase::ReadingFlag, WaitEvent::FlagRead(true)) => WaitPhase::Resolved,
        (WaitPhase::ReadingFlag, WaitEvent::FlagRead(false)) => WaitPhase::AwaitingChange,
        (WaitPhase::AwaitingChange, WaitEvent::Changed) => WaitPhase::ReadingFlag,
        (WaitPhase::AwaitingChange, WaitEvent::SenderDropped) => WaitPhase::Resolved,
        _ => phase,
    }
}

/// The phase reached from `phase` after observing `events` in order.
pub open spec fn wait_run(phase: WaitPhase, events: Seq<WaitEvent>) -> WaitPhase
    decreases events.len(),
{
    if events.len() == 0 {
        phase
    } else {
        wait_next(wait_run(phase, events.drop_last()), events.last())
    }
}

/// A watcher starts by reading the flag.
pub fn wait_start() -> (start: (WaitPhase, WaitAction))
    ensures
        start == (WaitPhase::ReadingFlag, WaitAction::ReadFlag),
{
    (WaitPhase::ReadingFlag, WaitAction::ReadFlag)
}

/// One decision of the watcher: the next phase and the action it performs.
/// A set flag or a dropped sender resolves the watcher; a clear flag makes
/// it await a change; a change makes it read the flag again.
pub fn wait_step(phase: WaitPhase, event: WaitEvent) -> (next: (WaitPhase, WaitAction))
    ensures
        next.0 == wait_next(phase, event),
        next.1 == phase_action(next.0),
        phase == WaitPhase::AwaitingChange && event == WaitEvent::Changed
            ==> next == (WaitPhase::ReadingFlag, WaitAction::ReadFlag),
{
    let p = match (phase, event) {
        (WaitPhase::ReadingFlag, WaitEvent::FlagRead(true)) => WaitPhase::Resolved,
        (WaitPhase::ReadingFlag, WaitEvent::FlagRead(false)) => WaitPhase::AwaitingChange,
        (WaitPhase::AwaitingChange, WaitEvent::Changed) => WaitPhase::ReadingFlag,
        (WaitPhase::AwaitingChange, WaitEvent::SenderDropped) => WaitPhase::Resolved,
        _ => phase,
    };
    let a = match p {
        WaitPhase::ReadingFlag => WaitAction::ReadFlag,
        WaitPhase::AwaitingChange => WaitAction::AwaitChange,
        WaitPhase::Resolved => WaitAction::Resolve,
    };
    (p, a)
}

/// Whether `event` tells of a shutdown: a set flag or a dropped sender.
pub open spec fn signals_shutdown(event: WaitEvent) -> bool {
    event == WaitEvent::FlagRead(true) || event == WaitEvent::SenderDropped
}

/// Once resolved, a watcher stays resolved whatever it observes afterwards.
pub proof fn lemma_resolved_is_final(events: Seq<WaitEvent>)
    ensures
        wait_run(WaitPhase::Resolved, events) == WaitPhase::Resolved,
    decreases events.len(),
{
    if events.len() > 0 {
        lemma_resolved_is_final(events.drop_last());
    }
}

/// A watcher that has not resolved yet resolves only after it has observed
/// a set flag or a dropped sender: a run that ends resolved holds such an
/// event.
pub proof fn lemma_resolves_only_on_shutdown(phase: WaitPhase, events: Seq<WaitEvent>)
    requires
        phase != WaitPhase::Resolved,
        wait_run(phase, events) == WaitPhase::Resolved,
    ensures
        exists|i: int| 0 <= i < events.len() && #[trigger] signals_shutdown(events[i]),
    decreases events.len(),
{
    let prefix = events.drop_last();
    let before = wait_run(phase, prefix);
    if before == WaitPhase::Resolved {
        lemma_resolves_only_on_shutdown(phase, prefix);
        let i = choose|i: int| 0 <= i < prefix.len() && #[trigger] signals_shutdown(prefix[i]);
        assert(events[i] == prefix[i]);
    } else {
        let last = events.len() - 1;
        assert(signals_shutdown(events[last]));
    }
}

/// Whatever a watcher has observed, reading a set flag or seeing the sender
/// dropped while it awaits that event resolves it.
pub proof fn lemma_shutdown_resolves(phase: WaitPhase, event: WaitEvent)
    requires
        (phase == WaitPhase::ReadingFlag && event == WaitEvent::FlagRead(true))
            || (phase == WaitPhase::AwaitingChange && event == WaitEvent::SenderDropped),
    ensures
        wait_next(phase, event) == WaitPhase::Resolved,
        phase_action(wait_next(phase, event)) == WaitAction::Resolve,
{
}

/// A watcher never awaits two changes without reading the flag between
/// them: along any run from the start, whenever it awaits a change and a
/// change comes, its next action is to read the flag, so the value that
/// was published is seen.
pub proof fn lemma_change_is_read(events: Seq<WaitEvent>, i: int)
    requires
        0 <= i < events.len(),
        wait_run(WaitPhase::ReadingFlag, events.take(i)) == WaitPhase::AwaitingChange,
        events[i] == WaitEvent::Changed,
    ensures
        wait_run(WaitPhase::ReadingFlag, events.take(i + 1)) == WaitPhase::ReadingFlag,
        phase_action(wait_run(WaitPhase::ReadingFlag, events.take(i + 1))) == WaitAction::ReadFlag,
{
    assert(events.take(i + 1).drop_last() =~= events.take(i));
    assert(events.take(i + 1).last() == events[i]);
}

/// Along any run from the start, the watcher moves as a loop that reads
/// the flag, awaits a change while it is clear, and reads it again after
/// each change: a set flag or a dropped sender resolves it, a clear flag
/// makes it await a change, and a change makes it read the flag.
pub proof fn lemma_watch_loop(events: Seq<WaitEvent>, i: int)
    requires
        0 <= i < events.len(),
    ensures ({
        let before = wait_run(WaitPhase::ReadingFlag, events.take(i));
        let after = wait_run(WaitPhase::ReadingFlag, events.take(i + 1));
        &&& before == WaitPhase::ReadingFlag && events[i] == WaitEvent::FlagRead(true)
            ==> phase_action(after) == WaitAction::Resolve
        &&& before == WaitPhase::ReadingFlag && events[i] == WaitEvent::FlagRead(false)
            ==> phase_action(after) == WaitAction::AwaitChange
        &&& before == WaitPhase::AwaitingChange && events[i] == WaitEvent::Changed
            ==> phase_action(after) == WaitAction::ReadFlag
        &&& before == WaitPhase::AwaitingChange && events[i] == WaitEvent::SenderDropped
            ==> phase_action(after) == WaitAction::Resolve
    }),
{
    assert(events.take(i + 1).drop_last() =~= events.take(i));
    assert(events.take(i + 1).last() == events[i]);
}

/// A clear flag never resolves a watcher: a run whose events tell of no
/// shutdown leaves an unresolved watcher unresolved.
pub proof fn lemma_no_shutdown_no_resolve(phase: WaitPhase, events: Seq<WaitEvent>)
    requires
        phase != WaitPhase::Resolved,
        forall|i: int| 0 <= i < events.len() ==> !#[trigger] signals_shutdown(events[i]),
    ensures
        wait_run(phase, events) != WaitPhase::Resolved,
{
    if wait_run(phase, events) == WaitPhase::Resolved {
        lemma_resolves_only_on_shutdown(phase, events);
    }
}

} // verus!
