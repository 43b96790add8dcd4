//! The vocabulary of the monitor: what it asks its driver to do, what the
//! driver reports back, and where the monitor stands in between.
//!
//! The monitor itself never touches the pointer device, a clock or a channel.
//! It names the next thing to be done as an [`Action`]; whoever drives it does
//! that thing and hands the outcome back as an [`Event`].

use vstd::prelude::*;
use crate::wiggler::{Point, Wiggler};
use crate::Meth;

verus! {

/// Seconds to rest between two looks at the cursor, and before a fresh start
/// after the device has failed.
pub const SLEEP_PERIOD_SECS: u64 = 30;

/// What one watch over the cursor remembers between two looks.
#[derive(Clone, Copy, Debug, PartialEq, Eq, Structural)]
pub struct Session {
    /// Where the cursor was when last seen, or where the monitor last put it.
    pub baseline: Point,
    /// The direction of the next wiggle.
    pub wiggler: Wiggler,
}

/// What the driver is to do next.
#[derive(Clone, Copy, Debug, PartialEq, Eq, Structural)]
pub enum Action {
    /// Look, without waiting, whether termination has been requested.
    CheckStop,
    /// Open the pointer device afresh.
    Connect,
    /// Read the cursor's position.
    ReadPosition,
    /// Put the cursor at this point.
    MoveTo(Point),
    /// Rest for this many seconds.
    Sleep(u64),
    /// Leave: the monitor has stopped for good.
    Exit,
}

/// What the driver reports back.
#[derive(Clone, Copy, Debug, PartialEq, Eq, Structural)]
pub enum Event {
    /// The stop check was made; `true` if termination had been requested.
    Termination(bool),
    /// The pointer device was opened.
    Connected,
    /// The cursor was read, and is here.
    Position(Point),
    /// The cursor was put where the monitor asked.
    Moved,
    /// Reading or moving the cursor failed.
    Failed,
    /// The rest is over.
    Slept,
}

/// Where the monitor stands. Each phase waits for the outcome of exactly one
/// action, given by [`Phase::pending`].
#[derive(Clone, Copy, Debug, PartialEq, Eq, Structural)]
pub enum Phase {
    /// At the top of the supervising loop, about to start a watch from scratch.
    Restarting,
    /// Cleared to start a watch; the device is yet to be opened.
    Connecting,
    /// The device is open; the first look, which only sets the baseline, is due.
    Settling,
    /// At the top of the watch.
    Polling(Session),
    /// Cleared to go on; a look at the cursor is due.
    Reading(Session),
    /// The cursor had not moved, so a wiggle is on its way. The session is
    /// already the one that holds once the move is done: its baseline is the
    /// wiggle's target.
    Moving(Session),
    /// The look is done; resting until the next one.
    Resting(Session),
    /// The device failed; the watch is lost, and a fresh start follows the rest.
    Recovering,
    /// Termination was seen. Nothing more will be done.
    Stopped,
}

impl Session {
    /// The session that a first look at `first` opens: the wiggle cycle
    /// starts upwards.
    pub open spec fn opening(first: Point) -> Session {
        Session { baseline: first, wiggler: Wiggler::Up }
    }

    /// The session after a look that found the cursor at `seen`. Found where
    /// it was left, the cursor is wiggled and the cycle turns; found anywhere
    /// else, it is left alone. Either way the baseline is where the cursor is
    /// once the look is dealt with.
    pub open spec fn after_look(self, seen: Point) -> Session {
        if seen == self.baseline {
            Session { baseline: self.wiggler.displace(seen), wiggler: self.wiggler.spec_next() }
        } else {
            Session { baseline: seen, wiggler: self.wiggler }
        }
    }
}

impl Session {
    /// Opens a session on the first look at the cursor. The first look only
    /// sets the baseline: there is nothing yet to compare it with.
    pub fn start(first: Point) -> (session: Session)
        ensures
            session == Session::opening(first),
    {
        Session { baseline: first, wiggler: Wiggler::default() }
    }

    /// Deals with a look that found the cursor at `seen`. If that is where it
    /// was left, the cursor is due a wiggle: the result is the point to move
    /// it to, which is also the new baseline, and the cycle turns. If the
    /// cursor is anywhere else, somebody is using it: the result is `None`,
    /// and `seen` is the new baseline.
    pub fn look(&mut self, seen: Point) -> (target: Option<Point>)
        ensures
            *final(self) == old(self).after_look(seen),
            target == if seen == old(self).baseline {
                Some(old(self).wiggler.displace(seen))
            } else {
                None
            },
    {
        let mut point = seen;
        if Meth::identical(&point, &self.baseline) {
            self.wiggler.transform(&mut point);
            self.baseline = point;
            Some(point)
        } else {
            self.baseline = point;
            None
        }
    }
}

impl Phase {
    /// The action whose outcome this phase waits for.
    pub open spec fn pending(self) -> Action {
        match self {
            Phase::Restarting => Action::CheckStop,
            Phase::Connecting => Action::Connect,
            Phase::Settling => Action::ReadPosition,
            Phase::Polling(_) => Action::CheckStop,
            Phase::Reading(_) => Action::ReadPosition,
            Phase::Moving(session) => Action::MoveTo(session.baseline),
            Phase::Resting(_) => Action::Sleep(SLEEP_PERIOD_SECS),
            Phase::Recovering => Action::Sleep(SLEEP_PERIOD_SECS),
            Phase::Stopped => Action::Exit,
        }
    }

    /// `event` is a possible outcome of the action that this phase waits for.
    pub open spec fn answered_by(self, event: Event) -> bool {
        match self.pending() {
            Action::CheckStop => event is Termination,
            Action::Connect => event is Connected,
            Action::ReadPosition => event is Position || event is Failed,
            Action::MoveTo(_) => event is Moved || event is Failed,
            Action::Sleep(_) => event is Slept,
            Action::Exit => false,
        }
    }

    /// The phase that follows this one on `event`. An event that does not
    /// answer the pending action changes nothing.
    pub open spec fn after(self, event: Event) -> Phase {
        match (self, event) {
            (Phase::Restarting, Event::Termination(true)) => Phase::Stopped,
            (Phase::Restarting, Event::Termination(false)) => Phase::Connecting,
            (Phase::Connecting, Event::Connected) => Phase::Settling,
            (Phase::Settling, Event::Position(first)) => Phase::Polling(Session::opening(first)),
            (Phase::Settling, Event::Failed) => Phase::Recovering,
            (Phase::Polling(_), Event::Termination(true)) => Phase::Stopped,
            (Phase::Polling(session), Event::Termination(false)) => Phase::Reading(session),
            (Phase::Reading(session), Event::Position(seen)) => if seen == session.baseline {
                Phase::Moving(session.after_look(seen))
            } else {
                Phase::Resting(session.after_look(seen))
            },
            (Phase::Reading(_), Event::Failed) => Phase::Recovering,
            (Phase::Moving(session), Event::Moved) => Phase::Resting(session),
            (Phase::Moving(_), Event::Failed) => Phase::Recovering,
            (Phase::Resting(session), Event::Slept) => Phase::Polling(session),
            (Phase::Recovering, Event::Slept) => Phase::Restarting,
            _ => self,
        }
    }

    /// The phase reached from this one when `events` arrive in order.
    pub open spec fn after_all(self, events: Seq<Event>) -> Phase
        decreases events.len(),
    {
        if events.len() == 0 {
            self
        } else {
            self.after(events[0]).after_all(events.drop_first())
        }
    }
}

} // verus!
