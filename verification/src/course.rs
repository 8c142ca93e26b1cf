//! The course of an interval as the program sees it: the actions that it is
//! asked for, one after the other, and what it is told to say, for every
//! answer that the world may give.

use crate::duration::Span;
use crate::monitor::{Action, Event, Monitor};
use crate::notice::Notice;
use crate::rounds::Round;
use vstd::prelude::*;

verus! {

/// The monitor awaits a tick, and the packet counter has not run backwards.
pub open spec fn at_tick(m: Monitor, received: u32) -> bool {
    m.wf() && m.action() == Action::AwaitTick && received >= m.packet_count
}

/// The monitor once the tick is over and the sockets are probed, where a port is
/// monitored.
pub open spec fn asked(m: Monitor, received: u32, connected: bool) -> Monitor {
    if m.args.port is Some {
        m.after(Event::Tick { received }).after(Event::Probed { connected })
    } else {
        m.after(Event::Tick { received })
    }
}

/// The monitor once it knows in addition whether the container is running.
pub open spec fn informed(m: Monitor, received: u32, connected: bool, up: bool) -> Monitor {
    asked(m, received, connected).after(Event::Inspected { running: Some(up) })
}

/// A new monitor awaits a tick, has counted nothing and holds the given options.
pub proof fn law_beginning(args: crate::args::Args)
    ensures
        Monitor::fresh(args).wf(),
        Monitor::fresh(args).action() == Action::AwaitTick,
        Monitor::fresh(args).args == args,
        Monitor::fresh(args).packet_count == 0,
        Monitor::fresh(args).suspension is None,
{
}

/// The monitor expects exactly the events that its action leads to; of a packet
/// counter it expects that it has not run backwards.
pub proof fn law_events_in_turn(m: Monitor, event: Event)
    ensures
        m.expects(event) <==> match event {
            Event::Tick { received } => m.action() is AwaitTick && received >= m.packet_count,
            Event::Probed { connected } => m.action() is ProbeSockets,
            Event::Inspected { running } => m.action() is InspectContainer,
            Event::Aborted => m.action() is AbortSuspension,
            Event::Polled { finished } => m.action() is PollSuspension,
            Event::Timed { now } => m.action() is ReadClock,
            Event::Scheduled { at } => m.action() is ScheduleSuspension,
            Event::Acted => m.action() is StartContainer || m.action() is SuspendContainer,
        },
{
}

/// Every interval begins with the inquiries: after the tick the monitored port
/// is probed, if there is one, and then the container is inspected. The counter
/// is kept, the options and a pending suspension stay as they are.
pub proof fn law_inquiries(m: Monitor, received: u32, connected: bool)
    requires
        at_tick(m, received),
    ensures
        m.after(Event::Tick { received }).wf(),
        m.after(Event::Tick { received }).packet_count == received,
        m.args.port matches Some(port) ==> m.after(Event::Tick { received }).action()
            == (Action::ProbeSockets { port }),
        asked(m, received, connected).wf(),
        asked(m, received, connected).action() == Action::InspectContainer,
        asked(m, received, connected).packet_count == received,
        asked(m, received, connected).suspension == m.suspension,
        asked(m, received, connected).args == m.args,
{
}

/// An interval with at least the threshold's packets, or with a connection that
/// is to be preserved, calls a pending suspension off, and starts the container
/// if and only if it is not running. It ends with no suspension pending.
pub proof fn law_busy_interval(m: Monitor, received: u32, connected: bool, up: bool)
    requires
        at_tick(m, received),
        received - m.packet_count >= m.args.threshold || (m.args.port is Some
            && m.args.preserve_connection && connected),
    ensures
        ({
            let first = informed(m, received, connected, up);
            let then = if m.suspension is Some {
                first.after(Event::Aborted)
            } else {
                first
            };
            let last = if up {
                then
            } else {
                then.after(Event::Acted)
            };
            &&& m.suspension is Some ==> first.action() == Action::AbortSuspension
            &&& !up ==> then.action() == Action::StartContainer
            &&& last == (Monitor {
                packet_count: received as u128,
                suspension: None,
                ..m
            })
        }),
{
}

/// An interval with fewer packets than the threshold, and without a connection
/// that is to be preserved, leaves a stopped container alone.
pub proof fn law_idle_interval_of_a_stopped_container(m: Monitor, received: u32, connected: bool)
    requires
        at_tick(m, received),
        received - m.packet_count < m.args.threshold,
        !(m.args.port is Some && m.args.preserve_connection && connected),
    ensures
        informed(m, received, connected, false) == (Monitor {
            packet_count: received as u128,
            ..m
        }),
{
}

/// Such an interval with a running container and no suspension pending has a
/// suspension scheduled after the timeout, and remembers when; without a timeout
/// it has the container suspended at once.
pub proof fn law_idle_interval_begins_a_wait(m: Monitor, received: u32, connected: bool, at: Span)
    requires
        at_tick(m, received),
        received - m.packet_count < m.args.threshold,
        !(m.args.port is Some && m.args.preserve_connection && connected),
        m.suspension is None,
    ensures
        ({
            let first = informed(m, received, connected, true);
            match m.args.timeout {
                Some(delay) => {
                    &&& first.action() == (Action::ScheduleSuspension { delay })
                    &&& first.after(Event::Scheduled { at }) == (Monitor {
                        packet_count: received as u128,
                        suspension: Some(at),
                        ..m
                    })
                },
                None => {
                    &&& first.action() == Action::SuspendContainer
                    &&& first.after(Event::Acted) == (Monitor {
                        packet_count: received as u128,
                        ..m
                    })
                },
            }
        }),
{
}

/// Such an interval with a running container and a suspension pending looks
/// after the suspension: a finished one is forgotten, of another the time left
/// is told, and it stays pending since the same time.
pub proof fn law_idle_interval_goes_on_waiting(
    m: Monitor,
    received: u32,
    connected: bool,
    now: Span,
)
    requires
        at_tick(m, received),
        received - m.packet_count < m.args.threshold,
        !(m.args.port is Some && m.args.preserve_connection && connected),
        m.suspension is Some,
    ensures
        ({
            let first = informed(m, received, connected, true);
            let going = first.after(Event::Polled { finished: false });
            &&& first.action() == Action::PollSuspension
            &&& first.after(Event::Polled { finished: true }) == (Monitor {
                packet_count: received as u128,
                suspension: None,
                ..m
            })
            &&& going.action() == Action::ReadClock
            &&& going.suspension == m.suspension
            &&& going.args == m.args
            &&& going.after(Event::Timed { now }) == (Monitor {
                packet_count: received as u128,
                ..m
            })
        }),
{
}

/// An interval that does not learn whether the container is running counts the
/// packets and does nothing else.
pub proof fn law_uninformed_interval(m: Monitor, received: u32, connected: bool)
    requires
        at_tick(m, received),
    ensures
        asked(m, received, connected).after(Event::Inspected { running: None }) == (Monitor {
            packet_count: received as u128,
            ..m
        }),
        asked(m, received, connected).notices(Event::Inspected { running: None }) == seq![
            Notice::StatusUnknown { container: m.args.container },
        ],
{
}

/// Upon a tick the program tells how far the counter has come since the last
/// one, whatever the distance, and the length of the interval.
pub proof fn law_tick_is_told(m: Monitor, received: u32)
    requires
        at_tick(m, received),
    ensures
        m.notices(Event::Tick { received }).len() == 1,
        m.notices(Event::Tick { received })[0] is PacketsReceived,
        m.notices(Event::Tick { received })[0]->count + m.packet_count == received,
        m.notices(Event::Tick { received })[0]->rate == m.args.rate,
{
}

/// An open connection is told, and nothing else about the sockets.
pub proof fn law_connection_is_told(m: Monitor)
    ensures
        m.notices(Event::Probed { connected: true }) == seq![Notice::ActiveConnection],
        m.notices(Event::Probed { connected: false }).len() == 0,
{
}

/// Whether the threshold was hit is told of every container of known status
/// that is active, together with the calling off of a suspension. Of an idle one
/// it is told what begins, with the delay; nothing is told of an idle container
/// that is stopped or waits already.
pub proof fn law_decision_is_told(m: Monitor, received: u32, connected: bool, up: bool)
    requires
        at_tick(m, received),
    ensures
        ({
            let told = asked(m, received, connected).notices(Event::Inspected { running: Some(up) });
            if received - m.packet_count >= m.args.threshold || (m.args.port is Some
                && m.args.preserve_connection && connected) {
                if m.suspension is Some {
                    told == seq![Notice::ThresholdHit, Notice::AbortingSuspension]
                } else {
                    told == seq![Notice::ThresholdHit]
                }
            } else if !up || m.suspension is Some {
                told.len() == 0
            } else {
                match m.args.timeout {
                    Some(delay) => told == seq![Notice::SchedulingSuspension { delay }],
                    None => told == seq![Notice::SuspendingWithoutWait],
                }
            }
        }),
{
}

/// Nothing is told upon the calling off, the polling or the scheduling of a
/// suspension, nor once the container was started or suspended.
pub proof fn law_the_rest_is_silent(m: Monitor, finished: bool, at: Span)
    ensures
        m.notices(Event::Aborted).len() == 0,
        m.notices(Event::Polled { finished }).len() == 0,
        m.notices(Event::Scheduled { at }).len() == 0,
        m.notices(Event::Acted).len() == 0,
{
}

/// The countdown tells the whole seconds from now until the timeout after the
/// time at which the suspension was scheduled, and none once that is past.
pub proof fn law_countdown_is_told(m: Monitor, now: Span)
    requires
        m.wf(),
        m.action() == Action::ReadClock,
    ensures
        ({
            let told = m.notices(Event::Timed { now });
            let due = m.suspension->0.total() + m.args.timeout->0.total();
            let ns = told[0]->seconds * 1_000_000_000;
            &&& told.len() == 1
            &&& told[0] is SuspensionPending
            &&& now.total() <= due ==> ns + now.total() <= due < ns + now.total() + 1_000_000_000
            &&& now.total() >= due ==> ns == 0
        }),
{
    crate::duration::law_lengths_are_bounded(m.suspension->0);
    crate::duration::law_lengths_are_bounded(m.args.timeout->0);
    crate::duration::law_time_left_runs_with_the_clock(
        m.suspension->0,
        m.args.timeout->0,
        now,
        now,
    );
}

/// The countdown keeps step with the clock: so many whole seconds later it tells
/// so many seconds less, as long as the wait lasts.
pub proof fn law_countdown_keeps_step(m: Monitor, now: Span, later: Span, passed: nat)
    requires
        m.wf(),
        m.action() == Action::ReadClock,
        later.total() == now.total() + passed * 1_000_000_000,
        later.total() <= m.suspension->0.total() + m.args.timeout->0.total(),
    ensures
        m.notices(Event::Timed { now })[0]->seconds == m.notices(
            Event::Timed { now: later },
        )[0]->seconds + passed,
{
    law_countdown_is_told(m, now);
    law_countdown_is_told(m, later);
}

/// The packets that the program tells in the intervals of a run, added up.
pub open spec fn packets_told(m: Monitor, rounds: Seq<Round>) -> int
    decreases rounds.len(),
{
    if rounds.len() == 0 {
        0
    } else {
        packets_told(m, rounds.drop_last()) + crate::laws::played(m, rounds.drop_last()).notices(
            Event::Tick { received: rounds.last().received },
        )[0]->count as int
    }
}

/// What is told of the packets in the intervals of a run adds up to how far the
/// counter has come, from where it stood before the run to where the last
/// interval found it.
pub proof fn law_told_packets_add_up(m: Monitor, rounds: Seq<Round>)
    requires
        crate::rounds::at_rest(m),
        crate::laws::counts_up(m, rounds),
    ensures
        rounds.len() == 0 ==> packets_told(m, rounds) == 0,
        rounds.len() > 0 ==> packets_told(m, rounds) == rounds.last().received - m.packet_count,
    decreases rounds.len(),
{
    if rounds.len() > 0 {
        let rest = rounds.drop_last();
        let n = rounds.len() - 1;
        assert(crate::laws::counts_up(m, rest)) by {
            assert forall|i: int| 0 <= i < rest.len() implies (#[trigger] rest[i]).received
                >= m.packet_count by {
                assert(rest[i] == rounds[i]);
            }
            assert forall|i: int, j: int| 0 <= i < j < rest.len() implies (
            #[trigger] rest[i]).received <= (#[trigger] rest[j]).received by {
                assert(rest[i] == rounds[i] && rest[j] == rounds[j]);
            }
        }
        law_told_packets_add_up(m, rest);
        crate::laws::law_run(m, rest);
        assert(rest.len() > 0 ==> rest.last() == rounds[n - 1]);
        law_tick_is_told(crate::laws::played(m, rest), rounds.last().received);
    }
}

/// What the laws on whole intervals call keeping up and idling, in terms of the
/// counter, the threshold and the connection.
pub proof fn law_activity_of_an_interval(m: Monitor, r: Round)
    ensures
        crate::laws::keeps_up(m, r) <==> r.running is Some && (r.received - m.packet_count
            >= m.args.threshold || (m.args.port is Some && m.args.preserve_connection
            && r.connected)),
        crate::laws::idles(m, r) <==> r.running == Some(true) && r.received - m.packet_count
            < m.args.threshold && !(m.args.port is Some && m.args.preserve_connection
            && r.connected),
{
}

} // verus!
