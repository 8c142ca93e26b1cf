//! The main loop as a state machine. The monitor names one action at a time;
//! the program performs it and hands back the event that it led to.

use crate::args::Args;
use crate::duration::Span;
use crate::notice::Notice;
use vstd::prelude::*;

verus! {

/// What the monitor waits for.
#[derive(Clone, Copy, Debug, PartialEq, Eq, Structural)]
pub enum Phase {
    /// The end of the interval.
    Waiting,
    /// Whether the monitored port has an open connection; the interval brought
    /// so many packets.
    Probing { packets: u128 },
    /// Whether the container is running; it does or does not count as active.
    Inspecting { active: bool },
    /// The pending suspension to be called off; the container is or is not
    /// running.
    Aborting { running: bool },
    /// Whether the pending suspension has finished.
    Polling,
    /// The time, to tell how far off the pending suspension is.
    Timing,
    /// A suspension to be scheduled.
    Scheduling,
    /// The container to be started.
    Starting,
    /// The container to be suspended.
    Suspending,
}

/// What the program is to do next.
#[derive(Clone, Copy, Debug, PartialEq, Eq, Structural)]
pub enum Action {
    /// Await the end of the interval and read the packet counter.
    AwaitTick,
    /// Find out whether the port has an open connection.
    ProbeSockets { port: usize },
    /// Find out whether the container is running.
    InspectContainer,
    /// Call the pending suspension off.
    AbortSuspension,
    /// Find out whether the pending suspension has finished.
    PollSuspension,
    /// Read the clock.
    ReadClock,
    /// Have the container suspended after the delay, without waiting for it.
    ScheduleSuspension { delay: Span },
    /// Start the container.
    StartContainer,
    /// Suspend the container.
    SuspendContainer,
}

/// What an action has led to.
#[derive(Clone, Copy, Debug, PartialEq, Eq, Structural)]
pub enum Event {
    /// The interval is over; so many packets were received since the start.
    Tick { received: u32 },
    /// The port has, or has not, an open connection.
    Probed { connected: bool },
    /// The container is, or is not, running, if that is known.
    Inspected { running: Option<bool> },
    /// The suspension was called off.
    Aborted,
    /// The suspension has, or has not, finished.
    Polled { finished: bool },
    /// The time.
    Timed { now: Span },
    /// The suspension was scheduled at this time.
    Scheduled { at: Span },
    /// The container was started or suspended, or the attempt failed.
    Acted,
}

/// The next action, and what there is to tell before it.
#[derive(Clone, Debug)]
pub struct Reply {
    pub action: Action,
    pub notices: Vec<Notice>,
}

/// Watches over one container.
#[derive(Clone, Debug)]
pub struct Monitor {
    pub args: Args,
    /// The packets received until the last interval's end.
    pub packet_count: u128,
    /// When the pending suspension was scheduled, if there is one.
    pub suspension: Option<Span>,
    pub phase: Phase,
}

impl Monitor {
    /// A suspension is pending only where there is a timeout, and each phase
    /// has what its action is about.
    pub open spec fn wf(self) -> bool {
        &&& self.suspension is Some ==> self.args.timeout is Some
        &&& match self.phase {
            Phase::Probing { packets } => self.args.port is Some,
            Phase::Aborting { running } => self.suspension is Some,
            Phase::Polling => self.suspension is Some,
            Phase::Timing => self.suspension is Some,
            Phase::Scheduling => self.suspension is None && self.args.timeout is Some,
            Phase::Suspending => self.suspension is None && self.args.timeout is None,
            _ => true,
        }
    }

    /// A monitor that has seen nothing yet.
    pub open spec fn fresh(args: Args) -> Monitor {
        Monitor { args, packet_count: 0, suspension: None, phase: Phase::Waiting }
    }

    /// The action of the phase.
    pub open spec fn action(self) -> Action {
        match self.phase {
            Phase::Waiting => Action::AwaitTick,
            Phase::Probing { packets } => Action::ProbeSockets { port: self.args.port->0 },
            Phase::Inspecting { active } => Action::InspectContainer,
            Phase::Aborting { running } => Action::AbortSuspension,
            Phase::Polling => Action::PollSuspension,
            Phase::Timing => Action::ReadClock,
            Phase::Scheduling => Action::ScheduleSuspension { delay: self.args.timeout->0 },
            Phase::Starting => Action::StartContainer,
            Phase::Suspending => Action::SuspendContainer,
        }
    }

    /// The event is one that the phase's action leads to. A packet counter
    /// does not run backwards.
    pub open spec fn expects(self, event: Event) -> bool {
        match event {
            Event::Tick { received } => self.phase is Waiting && received >= self.packet_count,
            Event::Probed { connected } => self.phase is Probing,
            Event::Inspected { running } => self.phase is Inspecting,
            Event::Aborted => self.phase is Aborting,
            Event::Polled { finished } => self.phase is Polling,
            Event::Timed { now } => self.phase is Timing,
            Event::Scheduled { at } => self.phase is Scheduling,
            Event::Acted => self.phase is Starting || self.phase is Suspending,
        }
    }

    /// What follows once it is known whether an active or idle container is
    /// running. An active container has its pending suspension called off and
    /// is started if it is not running. An idle container that is running has
    /// its pending suspension looked at; without one, a suspension is scheduled
    /// or, if there is no timeout, done at once.
    pub open spec fn phase_for(self, active: bool, running: bool) -> Phase {
        if active {
            if self.suspension is Some {
                Phase::Aborting { running }
            } else if running {
                Phase::Waiting
            } else {
                Phase::Starting
            }
        } else if !running {
            Phase::Waiting
        } else if self.suspension is Some {
            Phase::Polling
        } else if self.args.timeout is Some {
            Phase::Scheduling
        } else {
            Phase::Suspending
        }
    }

    /// The monitor after an event that it expects.
    pub open spec fn after(self, event: Event) -> Monitor {
        match event {
            Event::Tick { received } => {
                let packets = (received - self.packet_count) as u128;
                Monitor {
                    packet_count: received as u128,
                    phase: if self.args.port is Some {
                        Phase::Probing { packets }
                    } else {
                        Phase::Inspecting { active: self.args.active(packets as int, false) }
                    },
                    ..self
                }
            },
            Event::Probed { connected } => {
                let packets = self.phase->packets;
                Monitor {
                    phase: Phase::Inspecting {
                        active: self.args.active(packets as int, connected),
                    },
                    ..self
                }
            },
            Event::Inspected { running } => Monitor {
                phase: match running {
                    Some(up) => self.phase_for(self.phase->active, up),
                    None => Phase::Waiting,
                },
                ..self
            },
            Event::Aborted => Monitor {
                suspension: None,
                phase: if self.phase->running {
                    Phase::Waiting
                } else {
                    Phase::Starting
                },
                ..self
            },
            Event::Polled { finished } => if finished {
                Monitor { suspension: None, phase: Phase::Waiting, ..self }
            } else {
                Monitor { phase: Phase::Timing, ..self }
            },
            Event::Timed { now } => Monitor { phase: Phase::Waiting, ..self },
            Event::Scheduled { at } => Monitor {
                suspension: Some(at),
                phase: Phase::Waiting,
                ..self
            },
            Event::Acted => Monitor { phase: Phase::Waiting, ..self },
        }
    }

    /// What there is to tell upon an event that the monitor expects.
    pub open spec fn notices(self, event: Event) -> Seq<Notice> {
        match event {
            Event::Tick { received } => seq![
                Notice::PacketsReceived {
                    count: (received - self.packet_count) as u128,
                    rate: self.args.rate,
                },
            ],
            Event::Probed { connected } => if connected {
                seq![Notice::ActiveConnection]
            } else {
                seq![]
            },
            Event::Inspected { running } => match running {
                None => seq![Notice::StatusUnknown { container: self.args.container }],
                Some(up) => match self.after(event).phase {
                    Phase::Aborting { running } => seq![
                        Notice::ThresholdHit,
                        Notice::AbortingSuspension,
                    ],
                    Phase::Scheduling => seq![
                        Notice::SchedulingSuspension { delay: self.args.timeout->0 },
                    ],
                    Phase::Suspending => seq![Notice::SuspendingWithoutWait],
                    _ => if self.phase->active {
                        seq![Notice::ThresholdHit]
                    } else {
                        seq![]
                    },
                },
            },
            Event::Timed { now } => seq![
                Notice::SuspensionPending {
                    seconds: (crate::duration::time_left(
                        self.suspension->0,
                        self.args.timeout->0,
                        now,
                    ) / 1_000_000_000) as u128,
                },
            ],
            _ => seq![],
        }
    }

    /// Begins to watch over a container: first of all the end of an interval is
    /// awaited.
    pub fn new(args: Args) -> (monitor: Monitor)
        ensures
            monitor == Monitor::fresh(args),
            monitor.wf(),
            monitor.action() == Action::AwaitTick,
    {
        Monitor { args, packet_count: 0, suspension: None, phase: Phase::Waiting }
    }

    /// The action that the monitor waits for.
    pub fn current_action(&self) -> (action: Action)
        requires
            self.wf(),
        ensures
            action == self.action(),
    {
        match self.phase {
            Phase::Waiting => Action::AwaitTick,
            Phase::Probing { packets: _ } => Action::ProbeSockets { port: self.args.port.unwrap() },
            Phase::Inspecting { active: _ } => Action::InspectContainer,
            Phase::Aborting { running: _ } => Action::AbortSuspension,
            Phase::Polling => Action::PollSuspension,
            Phase::Timing => Action::ReadClock,
            Phase::Scheduling => Action::ScheduleSuspension { delay: self.args.timeout.unwrap() },
            Phase::Starting => Action::StartContainer,
            Phase::Suspending => Action::SuspendContainer,
        }
    }

    /// Whether the event is one that the monitor's action leads to.
    pub fn accepts(&self, event: Event) -> (accepted: bool)
        ensures
            accepted == self.expects(event),
    {
        match (event, self.phase) {
            (Event::Tick { received }, Phase::Waiting) => received as u128 >= self.packet_count,
            (Event::Probed { connected: _ }, Phase::Probing { packets: _ }) => true,
            (Event::Inspected { running: _ }, Phase::Inspecting { active: _ }) => true,
            (Event::Aborted, Phase::Aborting { running: _ }) => true,
            (Event::Polled { finished: _ }, Phase::Polling) => true,
            (Event::Timed { now: _ }, Phase::Timing) => true,
            (Event::Scheduled { at: _ }, Phase::Scheduling) => true,
            (Event::Acted, Phase::Starting) => true,
            (Event::Acted, Phase::Suspending) => true,
            _ => false,
        }
    }

    fn decide(&self, active: bool, running: bool) -> (phase: Phase)
        ensures
            phase == self.phase_for(active, running),
    {
        if active {
            if self.suspension.is_some() {
                Phase::Aborting { running }
            } else if running {
                Phase::Waiting
            } else {
                Phase::Starting
            }
        } else if !running {
            Phase::Waiting
        } else if self.suspension.is_some() {
            Phase::Polling
        } else if self.args.timeout.is_some() {
            Phase::Scheduling
        } else {
            Phase::Suspending
        }
    }

    /// Takes the event that the last action led to, and says what there is to
    /// tell and to do next.
    pub fn step(&mut self, event: Event) -> (reply: Reply)
        requires
            old(self).wf(),
            old(self).expects(event),
        ensures
            final(self).wf(),
            *final(self) == old(self).after(event),
            reply.action == final(self).action(),
            reply.notices@ == old(self).notices(event),
    {
        let mut notices: Vec<Notice> = Vec::new();
        match event {
            Event::Tick { received } => {
                let packets: u128 = received as u128 - self.packet_count;
                self.packet_count = received as u128;
                notices.push(Notice::PacketsReceived { count: packets, rate: self.args.rate });
                self.phase =
                if self.args.port.is_some() {
                    Phase::Probing { packets }
                } else {
                    Phase::Inspecting { active: self.args.is_active(packets, false) }
                };
            },
            Event::Probed { connected } => {
                if let Phase::Probing { packets } = self.phase {
                    if connected {
                        notices.push(Notice::ActiveConnection);
                    }
                    self.phase = Phase::Inspecting {
                        active: self.args.is_active(packets, connected),
                    };
                }
            },
            Event::Inspected { running: None } => {
                notices.push(Notice::StatusUnknown { container: self.args.container.clone() });
                self.phase = Phase::Waiting;
            },
            Event::Inspected { running: Some(running) } => {
                if let Phase::Inspecting { active } = self.phase {
                    let next: Phase = self.decide(active, running);
                    if active {
                        notices.push(Notice::ThresholdHit);
                    }
                    match next {
                        Phase::Aborting { running: _ } => {
                            notices.push(Notice::AbortingSuspension);
                        },
                        Phase::Scheduling => {
                            notices.push(
                                Notice::SchedulingSuspension { delay: self.args.timeout.unwrap() },
                            );
                        },
                        Phase::Suspending => {
                            notices.push(Notice::SuspendingWithoutWait);
                        },
                        _ => {},
                    }
                    self.phase = next;
                }
            },
            Event::Aborted => {
                if let Phase::Aborting { running } = self.phase {
                    self.suspension = None;
                    self.phase =
                    if running {
                        Phase::Waiting
                    } else {
                        Phase::Starting
                    };
                }
            },
            Event::Polled { finished } => {
                if finished {
                    self.suspension = None;
                    self.phase = Phase::Waiting;
                } else {
                    self.phase = Phase::Timing;
                }
            },
            Event::Timed { now } => {
                let since: Span = self.suspension.unwrap();
                let seconds: u128 = since.seconds_left(self.args.timeout.unwrap(), now);
                notices.push(Notice::SuspensionPending { seconds });
                self.phase = Phase::Waiting;
            },
            Event::Scheduled { at } => {
                self.suspension = Some(at);
                self.phase = Phase::Waiting;
            },
            Event::Acted => {
                self.phase = Phase::Waiting;
            },
        }
        Reply { action: self.current_action(), notices }
    }
}

} // verus!
