//! What the monitor does in a whole interval and over any number of intervals,
//! whatever the world answers. Everything here is stated of the monitor's
//! steps, one event after the other.

use crate::duration::Span;
use crate::monitor::{Action, Event, Monitor};
use vstd::prelude::*;

verus! {

/// What the world answers in one interval, should it be asked.
#[derive(Clone, Copy, Debug, PartialEq, Eq, Structural)]
pub struct Round {
    pub received: u32,
    pub connected: bool,
    pub running: Option<bool>,
    pub finished: bool,
    pub now: Span,
}

impl Round {
    /// The event that an action leads to in this interval.
    pub open spec fn event(self, action: Action) -> Event {
        match action {
            Action::AwaitTick => Event::Tick { received: self.received },
            Action::ProbeSockets { port } => Event::Probed { connected: self.connected },
            Action::InspectContainer => Event::Inspected { running: self.running },
            Action::AbortSuspension => Event::Aborted,
            Action::PollSuspension => Event::Polled { finished: self.finished },
            Action::ReadClock => Event::Timed { now: self.now },
            Action::ScheduleSuspension { delay } => Event::Scheduled { at: self.now },
            Action::StartContainer => Event::Acted,
            Action::SuspendContainer => Event::Acted,
        }
    }
}

/// Between intervals: the monitor is well formed and waits for the next tick.
pub open spec fn at_rest(m: Monitor) -> bool {
    m.wf() && m.phase is Waiting
}

/// One step of the monitor in an interval.
pub open spec fn stepped(m: Monitor, r: Round) -> Monitor {
    m.after(r.event(m.action()))
}

/// The monitor after at most `n` steps in an interval, fewer if it comes to
/// wait for the next tick before.
pub open spec fn driven(m: Monitor, r: Round, n: nat) -> Monitor
    decreases n,
{
    if n == 0 {
        m
    } else if stepped(m, r).phase is Waiting {
        stepped(m, r)
    } else {
        driven(stepped(m, r), r, (n - 1) as nat)
    }
}

/// The actions of those steps.
pub open spec fn driven_actions(m: Monitor, r: Round, n: nat) -> Seq<Action>
    decreases n,
{
    if n == 0 {
        seq![]
    } else if stepped(m, r).phase is Waiting {
        seq![m.action()]
    } else {
        seq![m.action()] + driven_actions(stepped(m, r), r, (n - 1) as nat)
    }
}

/// Each of those steps is taken upon an event that the monitor expects.
pub open spec fn driven_as_expected(m: Monitor, r: Round, n: nat) -> bool
    decreases n,
{
    n == 0 || (m.wf() && m.expects(r.event(m.action())) && (stepped(m, r).phase is Waiting
        || driven_as_expected(stepped(m, r), r, (n - 1) as nat)))
}

/// The container counts as active in the interval.
pub open spec fn active_in(m: Monitor, r: Round) -> bool {
    m.args.active(r.received - m.packet_count, r.connected)
}

/// What the monitor finds out in every interval.
pub open spec fn inquiries(m: Monitor) -> Seq<Action> {
    seq![Action::AwaitTick] + (if m.args.port is Some {
        seq![Action::ProbeSockets { port: m.args.port->0 }]
    } else {
        seq![]
    }) + seq![Action::InspectContainer]
}

/// What the monitor does upon that.
pub open spec fn measures(m: Monitor, r: Round) -> Seq<Action> {
    match r.running {
        None => seq![],
        Some(up) => if active_in(m, r) {
            (if m.suspension is Some {
                seq![Action::AbortSuspension]
            } else {
                seq![]
            }) + (if up {
                seq![]
            } else {
                seq![Action::StartContainer]
            })
        } else if !up {
            seq![]
        } else if m.suspension is Some {
            if r.finished {
                seq![Action::PollSuspension]
            } else {
                seq![Action::PollSuspension, Action::ReadClock]
            }
        } else {
            match m.args.timeout {
                Some(delay) => seq![Action::ScheduleSuspension { delay }],
                None => seq![Action::SuspendContainer],
            }
        },
    }
}

/// When the suspension that is pending after the interval was scheduled.
pub open spec fn suspension_after(m: Monitor, r: Round) -> Option<Span> {
    match r.running {
        None => m.suspension,
        Some(up) => if active_in(m, r) {
            None
        } else if !up {
            m.suspension
        } else if m.suspension is Some {
            if r.finished {
                None
            } else {
                m.suspension
            }
        } else if m.args.timeout is Some {
            Some(r.now)
        } else {
            None
        },
    }
}

/// The monitor at the end of an interval.
pub open spec fn round_end(m: Monitor, r: Round) -> Monitor {
    Monitor {
        packet_count: r.received as u128,
        suspension: suspension_after(m, r),
        ..m
    }
}

/// An interval is over after five steps at most. They are taken upon expected
/// events, they are the inquiries and then the measures, and they leave the
/// monitor at rest with the packets counted and the suspension kept up to date.
pub proof fn law_round(m: Monitor, r: Round, n: nat)
    requires
        at_rest(m),
        r.received >= m.packet_count,
        n >= 5,
    ensures
        driven_as_expected(m, r, n),
        driven_actions(m, r, n) == inquiries(m) + measures(m, r),
        driven(m, r, n) == round_end(m, r),
        at_rest(round_end(m, r)),
{
    reveal_with_fuel(driven, 6);
    reveal_with_fuel(driven_actions, 6);
    reveal_with_fuel(driven_as_expected, 6);
    assert(driven_actions(m, r, n) =~= inquiries(m) + measures(m, r));
}

} // verus!
