//! What holds of the monitor in every state, proved from the transition
//! function alone.

use vstd::prelude::*;
use crate::machine::{Action, Event, Phase, Session, SLEEP_PERIOD_SECS};
use crate::wiggler::{one_wiggle_apart, Point, Wiggler, WIGGLE_DISPLACEMENT};

verus! {

/// How many answered actions lie at most between a phase and the next stop
/// check or the end.
pub open spec fn steps_to_stop_check(phase: Phase) -> nat {
    match phase {
        Phase::Restarting | Phase::Polling(_) | Phase::Stopped => 0,
        Phase::Resting(_) | Phase::Recovering => 1,
        Phase::Moving(_) | Phase::Settling => 2,
        Phase::Reading(_) | Phase::Connecting => 3,
    }
}

/// The session after `n` looks in a row that each found the cursor where the
/// monitor had left it.
pub open spec fn after_idle_looks(session: Session, n: nat) -> Session
    decreases n,
{
    if n == 0 {
        session
    } else {
        after_idle_looks(session.after_look(session.baseline), (n - 1) as nat)
    }
}

/// An event that does not answer the pending action changes nothing.
pub proof fn lemma_unanswered_event_is_ignored(phase: Phase, event: Event)
    requires
        !phase.answered_by(event),
    ensures
        phase.after(event) == phase,
{
}

/// The first look of a watch never moves the cursor: it sets the baseline,
/// starts the cycle upwards, and the next thing due is a stop check.
pub proof fn lemma_first_look_sets_baseline(first: Point)
    ensures
        Phase::Settling.after(Event::Position(first)) == Phase::Polling(
            Session { baseline: first, wiggler: Wiggler::Up },
        ),
        Phase::Settling.after(Event::Position(first)).pending() == Action::CheckStop,
{
}

/// A look that finds the cursor where it was left asks for a move by one
/// wiggle in the session's direction, and turns the cycle. Once the move is
/// done, its target is the new baseline. Where the wiggle fits into the `i32`
/// range, the new baseline is exactly one displacement from the old one along
/// one axis; on the first wiggle of a watch that is straight up.
pub proof fn lemma_idle_triggers_wiggle(session: Session)
    ensures
        Phase::Reading(session).after(Event::Position(session.baseline)).pending()
            == Action::MoveTo(session.wiggler.displace(session.baseline)),
        Phase::Reading(session).after(Event::Position(session.baseline)).after(Event::Moved)
            == Phase::Resting(
            Session {
                baseline: session.wiggler.displace(session.baseline),
                wiggler: session.wiggler.spec_next(),
            },
        ),
        session.wiggler.fits(session.baseline) ==> one_wiggle_apart(
            session.baseline,
            session.wiggler.displace(session.baseline),
        ),
        session.wiggler == Wiggler::Up && session.wiggler.fits(session.baseline)
            ==> session.wiggler.displace(session.baseline) == (Point {
            x: session.baseline.x,
            y: (session.baseline.y - WIGGLE_DISPLACEMENT) as i32,
        }),
{
}

/// A look that finds the cursor anywhere but where it was left asks for no
/// move: the monitor takes the position as it was reported for its new
/// baseline, keeps its direction, and rests.
pub proof fn lemma_activity_suppresses_wiggle(session: Session, seen: Point)
    requires
        seen != session.baseline,
    ensures
        Phase::Reading(session).after(Event::Position(seen)) == Phase::Resting(
            Session { baseline: seen, wiggler: session.wiggler },
        ),
        Phase::Reading(session).after(Event::Position(seen)).pending() == Action::Sleep(
            SLEEP_PERIOD_SECS,
        ),
{
}

/// The monitor asks for a move only on finding the cursor idle: whenever a
/// move is pending after an event, either the same move was pending before
/// and the event did not answer it, or the event was a look that found the
/// cursor at the baseline, and the move is one wiggle from there.
pub proof fn lemma_moves_only_when_idle(phase: Phase, event: Event)
    requires
        phase.after(event).pending() is MoveTo,
    ensures
        (phase is Moving && phase.after(event) == phase) || (exists|session: Session|
            phase == Phase::Reading(session) && event == Event::Position(session.baseline)
                && phase.after(event).pending() == Action::MoveTo(
                session.wiggler.displace(session.baseline),
            )),
{
    match phase {
        Phase::Reading(session) => {
            assert(event == Event::Position(session.baseline));
            assert(phase == Phase::Reading(session));
        },
        _ => {},
    }
}

/// A stop check that finds termination requested ends the monitor, wherever
/// in its loops the check was made.
pub proof fn lemma_termination_stops(phase: Phase)
    requires
        phase.pending() == Action::CheckStop,
    ensures
        phase.after(Event::Termination(true)) == Phase::Stopped,
        phase.after(Event::Termination(true)).pending() == Action::Exit,
{
}

/// Nothing but a stop check that finds termination requested ends the
/// monitor: no failure and no other event ever does.
pub proof fn lemma_only_termination_stops(phase: Phase, event: Event)
    requires
        phase != Phase::Stopped,
        phase.after(event) == Phase::Stopped,
    ensures
        phase.pending() == Action::CheckStop,
        event == Event::Termination(true),
{
}

/// Once stopped, the monitor stays stopped whatever arrives, and asks for
/// nothing but to leave: no look and no move follows.
pub proof fn lemma_stopped_is_final(events: Seq<Event>)
    ensures
        Phase::Stopped.after_all(events) == Phase::Stopped,
        Phase::Stopped.after_all(events).pending() == Action::Exit,
    decreases events.len(),
{
    if events.len() > 0 {
        lemma_stopped_is_final(events.drop_first());
    }
}

/// Every rest is followed at once by a stop check.
pub proof fn lemma_rest_leads_to_stop_check(phase: Phase)
    requires
        phase.pending() is Sleep,
    ensures
        phase.pending() == Action::Sleep(SLEEP_PERIOD_SECS),
        phase.after(Event::Slept).pending() == Action::CheckStop,
{
}

/// A look at the cursor is only ever asked for right after a stop check
/// that found no termination requested, with at most the opening of the
/// device in between.
pub proof fn lemma_stop_check_precedes_look(phase: Phase, event: Event)
    requires
        phase.after(event).pending() == Action::ReadPosition,
        phase.after(event) != phase,
    ensures
        (phase.pending() == Action::CheckStop && event == Event::Termination(false)) || (phase
            == Phase::Connecting && event == Event::Connected),
        phase == Phase::Connecting ==> Phase::Restarting.after(Event::Termination(false)) == phase,
{
}

/// The next stop check is never far: as long as the driver answers what is
/// asked, each answer brings the monitor strictly closer to a stop check (or
/// the end), which is at most three answers away. A rest is only ever the
/// last step before it, so at most one rest lies between any moment and the
/// next stop check.
pub proof fn lemma_stop_check_is_near(phase: Phase, event: Event)
    requires
        phase.answered_by(event),
    ensures
        steps_to_stop_check(phase) <= 3,
        steps_to_stop_check(phase) == 0 <==> (phase.pending() == Action::CheckStop
            || phase.pending() == Action::Exit),
        steps_to_stop_check(phase) > 0 ==> steps_to_stop_check(phase.after(event))
            < steps_to_stop_check(phase),
        phase.pending() is Sleep ==> steps_to_stop_check(phase) == 1,
{
}

/// A failure of the device, on a look or on a move, throws the watch away
/// but does not end the monitor: after a rest and a stop check it opens the
/// device again and starts a watch from scratch, with the next position it
/// reads for a baseline and the cycle upwards again.
pub proof fn lemma_recovers_after_failure(phase: Phase, first: Point)
    requires
        phase.pending() == Action::ReadPosition || phase.pending() is MoveTo,
    ensures
        phase.after(Event::Failed) == Phase::Recovering,
        Phase::Recovering.pending() == Action::Sleep(SLEEP_PERIOD_SECS),
        Phase::Recovering.after(Event::Slept) == Phase::Restarting,
        Phase::Restarting.after(Event::Termination(false)).after(Event::Connected).after(
            Event::Position(first),
        ) == Phase::Polling(Session { baseline: first, wiggler: Wiggler::Up }),
{
}

/// One whole round of the watch with the cursor left alone: stop check, look,
/// move, rest. It ends at the top of the watch with the wiggled session.
pub proof fn lemma_idle_round(session: Session)
    ensures
        Phase::Polling(session).after(Event::Termination(false)).after(
            Event::Position(session.baseline),
        ).after(Event::Moved).after(Event::Slept) == Phase::Polling(
            after_idle_looks(session, 1),
        ),
{
    reveal_with_fuel(after_idle_looks, 2);
}

/// Left alone, the monitor walks the cursor round a closed square: `n` idle
/// looks wiggle the baseline `n` times, and after every fourth the session is
/// exactly what it was.
pub proof fn lemma_idle_looks_close_the_square(session: Session, n: nat)
    ensures
        after_idle_looks(session, n).baseline == session.wiggler.wiggle(session.baseline, n).1,
        after_idle_looks(session, n).wiggler == session.wiggler.wiggle(session.baseline, n).0,
        after_idle_looks(session, 4) == session,
    decreases n,
{
    if n > 0 {
        lemma_idle_looks_close_the_square(session.after_look(session.baseline), (n - 1) as nat);
    }
    reveal_with_fuel(after_idle_looks, 5);
    crate::wiggler::lemma_net_zero(session.wiggler, session.baseline);
    reveal_with_fuel(Wiggler::wiggle, 5);
}

} // verus!
