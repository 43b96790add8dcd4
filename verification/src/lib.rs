//! Keeps a desktop awake: whenever the mouse cursor has not moved since the
//! last look, it is nudged by a few pixels, so that the system's idle timer
//! never runs out.
//!
//! [`Meth`] is the monitor. It decides; it does not act. It names the next
//! [`Action`], and takes the outcome as an [`Event`]:
//!
//! ```text
//! let mut meth = Meth::new();
//! let mut action = meth.pending();
//! loop {
//!     let event = /* do what `action` says */;
//!     action = meth.step(event);
//! }
//! ```

use vstd::prelude::*;

pub mod laws;
pub mod machine;
pub mod wiggler;

use crate::machine::{Action, Event, Phase, Session, SLEEP_PERIOD_SECS};
use crate::wiggler::Point;

verus! {

/// The monitor: watches the cursor and wiggles it when it has been idle.
///
/// The monitor starts with a stop check and, unless termination was
/// requested, opens the device and takes a first look that only sets the
/// baseline. From then on each round is: stop check, look, wiggle if the
/// cursor is where it was left, rest. A failure of the device throws the
/// watch away; after a rest the monitor starts from scratch. It never gives
/// up by itself: only a stop check that finds termination requested ends it.
#[derive(Clone, Copy, Debug, PartialEq, Eq, Structural)]
pub struct Meth {
    /// Where the monitor stands.
    pub phase: Phase,
}

impl Meth {
    /// A monitor at its very start: the first stop check is due.
    pub fn new() -> (meth: Meth)
        ensures
            meth.phase == Phase::Restarting,
    {
        Meth { phase: Phase::Restarting }
    }

    /// Are these two points identical?
    pub fn identical(a: &Point, b: &Point) -> (same: bool)
        ensures
            same == (*a == *b),
    {
        a.x == b.x && a.y == b.y
    }

    /// The action that the monitor is waiting to hear about.
    pub fn pending(&self) -> (action: Action)
        ensures
            action == self.phase.pending(),
    {
        match self.phase {
            Phase::Restarting => Action::CheckStop,
            Phase::Connecting => Action::Connect,
            Phase::Settling => Action::ReadPosition,
            Phase::Polling(_) => Action::CheckStop,
            Phase::Reading(_) => Action::ReadPosition,
            Phase::Moving(session) => Action::MoveTo(session.baseline),
            Phase::Resting(_) => Action::Sleep(SLEEP_PERIOD_SECS),
            Phase::Recovering => Action::Sleep(SLEEP_PERIOD_SECS),
            Phase::Stopped => Action::Exit,
        }
    }

    /// Takes the outcome of the pending action, moves on, and says what is to
    /// be done next. An event that does not answer the pending action is
    /// ignored: the monitor stays where it is and asks for the same action
    /// again.
    pub fn step(&mut self, event: Event) -> (action: Action)
        ensures
            final(self).phase == old(self).phase.after(event),
            action == final(self).phase.pending(),
    {
        let next = match (self.phase, event) {
            (Phase::Restarting, Event::Termination(stop)) => if stop {
                Phase::Stopped
            } else {
                Phase::Connecting
            },
            (Phase::Connecting, Event::Connected) => Phase::Settling,
            (Phase::Settling, Event::Position(first)) => Phase::Polling(Session::start(first)),
            (Phase::Polling(session), Event::Termination(stop)) => if stop {
                Phase::Stopped
            } else {
                Phase::Reading(session)
            },
            (Phase::Reading(session), Event::Position(seen)) => {
                let mut session = session;
                match session.look(seen) {
                    Some(_) => Phase::Moving(session),
                    None => Phase::Resting(session),
                }
            },
            (Phase::Moving(session), Event::Moved) => Phase::Resting(session),
            (Phase::Settling, Event::Failed) => Phase::Recovering,
            (Phase::Reading(_), Event::Failed) => Phase::Recovering,
            (Phase::Moving(_), Event::Failed) => Phase::Recovering,
            (Phase::Resting(session), Event::Slept) => Phase::Polling(session),
            (Phase::Recovering, Event::Slept) => Phase::Restarting,
            (phase, _) => phase,
        };
        self.phase = next;
        self.pending()
    }
}

} // verus!
