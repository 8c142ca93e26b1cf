use principal::args::Args;
use principal::duration::Span;
use principal::monitor::{Action, Event, Monitor, Reply};
use principal::notice::{start_outcome, suspend_outcome, Level, Notice};

fn span(secs: u64) -> Span {
    Span::new(secs, 0).unwrap()
}

fn args(port: Option<usize>, threshold: usize, preserve: bool, timeout: Option<u64>) -> Args {
    Args {
        debug: false,
        rate: span(1),
        timeout: timeout.map(span),
        port,
        threshold,
        preserve_connection: preserve,
        container: "web".to_string(),
    }
}

fn messages(reply: &Reply) -> Vec<String> {
    reply.notices.iter().map(|notice| notice.message()).collect()
}

/// What the world answers in one interval.
struct World {
    received: u32,
    connected: bool,
    running: Option<bool>,
    finished: bool,
    now: u64,
}

/// Plays one interval; gives the actions after the inquiries, and every message.
fn interval(monitor: &mut Monitor, world: &World) -> (Vec<Action>, Vec<String>) {
    let mut action = Action::AwaitTick;
    let mut measures = vec![];
    let mut said = vec![];
    loop {
        let event = match action {
            Action::AwaitTick => Event::Tick { received: world.received },
            Action::ProbeSockets { port: _ } => Event::Probed { connected: world.connected },
            Action::InspectContainer => Event::Inspected { running: world.running },
            Action::AbortSuspension => Event::Aborted,
            Action::PollSuspension => Event::Polled { finished: world.finished },
            Action::ReadClock => Event::Timed { now: span(world.now) },
            Action::ScheduleSuspension { delay: _ } => Event::Scheduled { at: span(world.now) },
            Action::StartContainer => Event::Acted,
            Action::SuspendContainer => Event::Acted,
        };
        assert!(monitor.accepts(event));
        let reply = monitor.step(event);
        said.extend(messages(&reply));
        action = reply.action;
        assert_eq!(monitor.current_action(), action);
        match action {
            Action::AwaitTick => return (measures, said),
            Action::ProbeSockets { port: _ } | Action::InspectContainer => {}
            other => measures.push(other),
        }
    }
}

fn world(received: u32, connected: bool, running: Option<bool>, now: u64) -> World {
    World { received, connected, running, finished: false, now }
}

#[test]
fn a_new_monitor_awaits_the_first_tick() {
    let monitor = Monitor::new(args(None, 30, true, Some(30)));
    assert_eq!(monitor.current_action(), Action::AwaitTick);
    assert_eq!(monitor.packet_count, 0);
    assert_eq!(monitor.suspension, None);
}

#[test]
fn sockets_are_probed_only_for_a_monitored_port() {
    let mut with = Monitor::new(args(Some(8080), 10, false, Some(5)));
    assert_eq!(
        with.step(Event::Tick { received: 3 }).action,
        Action::ProbeSockets { port: 8080 }
    );
    assert_eq!(
        with.step(Event::Probed { connected: false }).action,
        Action::InspectContainer
    );
    let mut without = Monitor::new(args(None, 10, false, Some(5)));
    assert_eq!(
        without.step(Event::Tick { received: 3 }).action,
        Action::InspectContainer
    );
}

#[test]
fn events_out_of_turn_are_not_accepted() {
    let mut monitor = Monitor::new(args(Some(8080), 10, false, Some(5)));
    assert!(!monitor.accepts(Event::Probed { connected: true }));
    assert!(!monitor.accepts(Event::Acted));
    assert!(monitor.accepts(Event::Tick { received: 7 }));
    monitor.step(Event::Tick { received: 7 });
    assert!(!monitor.accepts(Event::Tick { received: 8 }));
    assert!(monitor.accepts(Event::Probed { connected: true }));
}

#[test]
fn a_packet_counter_that_runs_backwards_is_not_accepted() {
    let mut monitor = Monitor::new(args(None, 10, false, Some(5)));
    interval(&mut monitor, &world(7, false, Some(true), 1));
    assert!(!monitor.accepts(Event::Tick { received: 6 }));
    assert!(monitor.accepts(Event::Tick { received: 7 }));
}

#[test]
fn reaching_the_threshold_counts_as_active() {
    for (packets, active) in [(9, false), (10, true), (11, true)] {
        let mut monitor = Monitor::new(args(None, 10, true, Some(5)));
        let (measures, _) = interval(&mut monitor, &world(packets, false, Some(true), 1));
        assert_eq!(measures.is_empty(), active);
        assert_eq!(monitor.args.is_active(packets as u128, false), active);
    }
}

#[test]
fn only_the_packets_of_the_interval_count() {
    let mut monitor = Monitor::new(args(None, 10, true, Some(5)));
    let (measures, said) = interval(&mut monitor, &world(50, false, Some(true), 1));
    assert_eq!(measures, vec![]);
    assert_eq!(said, vec!["Received 50 packets in last 1s", "Threshold hit"]);
    let (measures, said) = interval(&mut monitor, &world(55, false, Some(true), 2));
    assert_eq!(measures, vec![Action::ScheduleSuspension { delay: span(5) }]);
    assert_eq!(
        said,
        vec![
            "Received 5 packets in last 1s",
            "Threshold missed. Scheduling suspension in 5s"
        ]
    );
    assert_eq!(monitor.packet_count, 55);
}

#[test]
fn an_open_connection_counts_if_connections_are_preserved() {
    let mut monitor = Monitor::new(args(Some(5432), 1_000_000, true, Some(5)));
    let (measures, said) = interval(&mut monitor, &world(0, true, Some(true), 1));
    assert_eq!(measures, vec![]);
    assert_eq!(
        said,
        vec![
            "Received 0 packets in last 1s",
            "Socket has an active connection",
            "Threshold hit"
        ]
    );
}

#[test]
fn an_open_connection_does_not_count_if_connections_are_not_preserved() {
    let mut connected = Monitor::new(args(Some(8080), 10, false, Some(5)));
    let mut apart = Monitor::new(args(Some(8080), 10, false, Some(5)));
    let (with, _) = interval(&mut connected, &world(3, true, Some(true), 1));
    let (without, _) = interval(&mut apart, &world(3, false, Some(true), 1));
    assert_eq!(with, vec![Action::ScheduleSuspension { delay: span(5) }]);
    assert_eq!(with, without);
}

#[test]
fn an_active_stopped_container_is_started() {
    let mut monitor = Monitor::new(args(None, 10, true, Some(5)));
    let (measures, _) = interval(&mut monitor, &world(20, false, Some(false), 1));
    assert_eq!(measures, vec![Action::StartContainer]);
}

#[test]
fn an_idle_stopped_container_is_left_alone() {
    let mut monitor = Monitor::new(args(None, 10, true, Some(5)));
    interval(&mut monitor, &world(0, false, Some(true), 1));
    assert_eq!(monitor.suspension, Some(span(1)));
    let (measures, said) = interval(&mut monitor, &world(4, false, Some(false), 2));
    assert_eq!(measures, vec![]);
    assert_eq!(said, vec!["Received 4 packets in last 1s"]);
    assert_eq!(monitor.suspension, Some(span(1)));
}

#[test]
fn an_unknown_status_changes_nothing_but_the_count() {
    let mut monitor = Monitor::new(args(None, 10, true, Some(5)));
    interval(&mut monitor, &world(0, false, Some(true), 1));
    let (measures, said) = interval(&mut monitor, &world(40, false, None, 2));
    assert_eq!(measures, vec![]);
    assert_eq!(
        said,
        vec![
            "Received 40 packets in last 1s",
            "Failed to check if container web is running"
        ]
    );
    assert_eq!(monitor.suspension, Some(span(1)));
    assert_eq!(monitor.packet_count, 40);
}

#[test]
fn activity_calls_the_suspension_off() {
    let mut monitor = Monitor::new(args(None, 10, true, Some(5)));
    interval(&mut monitor, &world(0, false, Some(true), 1));
    let (measures, said) = interval(&mut monitor, &world(20, false, Some(true), 2));
    assert_eq!(measures, vec![Action::AbortSuspension]);
    assert_eq!(
        said,
        vec![
            "Received 20 packets in last 1s",
            "Threshold hit",
            "Aborting suspension"
        ]
    );
    assert_eq!(monitor.suspension, None);
    let (measures, _) = interval(&mut monitor, &world(20, false, Some(true), 3));
    assert_eq!(measures, vec![Action::ScheduleSuspension { delay: span(5) }]);
    assert_eq!(monitor.suspension, Some(span(3)));
}

#[test]
fn activity_of_a_stopped_container_calls_off_and_starts() {
    let mut monitor = Monitor::new(args(None, 10, true, Some(5)));
    interval(&mut monitor, &world(0, false, Some(true), 1));
    let (measures, _) = interval(&mut monitor, &world(20, false, Some(false), 2));
    assert_eq!(measures, vec![Action::AbortSuspension, Action::StartContainer]);
}

#[test]
fn a_pending_suspension_is_counted_down_and_not_drawn_out() {
    let mut monitor = Monitor::new(args(None, 10, true, Some(5)));
    interval(&mut monitor, &world(0, false, Some(true), 1));
    for (now, left) in [(2, 4), (3, 3), (4, 2), (5, 1), (6, 0), (7, 0)] {
        let (measures, said) = interval(&mut monitor, &world(0, false, Some(true), now));
        assert_eq!(measures, vec![Action::PollSuspension, Action::ReadClock]);
        assert_eq!(
            said[1],
            format!("Threshold missed, suspension scheduled in {left} seconds")
        );
        assert_eq!(monitor.suspension, Some(span(1)));
    }
}

#[test]
fn a_finished_suspension_is_followed_by_another() {
    let mut monitor = Monitor::new(args(None, 10, true, Some(5)));
    interval(&mut monitor, &world(0, false, Some(true), 1));
    let over = World { received: 0, connected: false, running: Some(true), finished: true, now: 7 };
    let (measures, _) = interval(&mut monitor, &over);
    assert_eq!(measures, vec![Action::PollSuspension]);
    assert_eq!(monitor.suspension, None);
    let (measures, _) = interval(&mut monitor, &world(0, false, Some(true), 8));
    assert_eq!(measures, vec![Action::ScheduleSuspension { delay: span(5) }]);
}

#[test]
fn without_a_timeout_an_idle_container_is_suspended_at_once() {
    let mut monitor = Monitor::new(args(None, 10, true, None));
    let (measures, said) = interval(&mut monitor, &world(0, false, Some(true), 1));
    assert_eq!(measures, vec![Action::SuspendContainer]);
    assert_eq!(
        said,
        vec![
            "Received 0 packets in last 1s",
            "Threshold missed. Suspending container"
        ]
    );
    assert_eq!(monitor.suspension, None);
}

#[test]
fn the_packets_of_a_run_add_up() {
    let mut monitor = Monitor::new(args(None, 10, true, Some(5)));
    let mut total = 0;
    for received in [0, 4, 4, 17, 90] {
        let count = monitor.packet_count;
        interval(&mut monitor, &world(received, false, Some(true), 1));
        total += monitor.packet_count - count;
    }
    assert_eq!(total, 90);
    assert_eq!(monitor.packet_count, 90);
}

/// A container that answers the monitor's actions, second by second.
struct Container {
    running: bool,
    due: Option<u64>,
    received: u32,
    now: u64,
}

fn second(
    monitor: &mut Monitor,
    container: &mut Container,
    packets: u32,
    connected: bool,
) -> Vec<String> {
    container.now += 1;
    container.received += packets;
    let mut finished = true;
    if let Some(due) = container.due {
        finished = container.now >= due;
        if finished {
            container.running = false;
        }
    }
    let answers = World {
        received: container.received,
        connected,
        running: Some(container.running),
        finished,
        now: container.now,
    };
    let (measures, said) = interval(monitor, &answers);
    for measure in measures {
        match measure {
            Action::StartContainer => container.running = true,
            Action::SuspendContainer => container.running = false,
            Action::AbortSuspension => container.due = None,
            Action::ScheduleSuspension { delay } => {
                container.due = Some(container.now + delay.as_secs())
            }
            _ => {}
        }
    }
    said
}

#[test]
fn the_container_follows_the_traffic() {
    let mut monitor = Monitor::new(args(Some(8080), 10, false, Some(5)));
    let mut container = Container { running: true, due: None, received: 0, now: 0 };
    second(&mut monitor, &mut container, 12, true);
    let said = second(&mut monitor, &mut container, 0, false);
    assert_eq!(said[1], "Threshold missed. Scheduling suspension in 5s");
    for _ in 0..10 {
        second(&mut monitor, &mut container, 0, false);
    }
    assert!(!container.running);
    second(&mut monitor, &mut container, 20, false);
    assert!(container.running);
    for _ in 0..10 {
        second(&mut monitor, &mut container, 20, true);
        assert!(container.running);
    }
    for _ in 0..10 {
        second(&mut monitor, &mut container, 0, false);
    }
    assert!(!container.running);
}

#[test]
fn the_container_outlasts_its_connection() {
    let mut monitor = Monitor::new(args(Some(5432), 1_000_000, true, Some(5)));
    let mut container = Container { running: true, due: None, received: 0, now: 0 };
    second(&mut monitor, &mut container, 200, true);
    for _ in 0..15 {
        second(&mut monitor, &mut container, 2, true);
        assert!(container.running);
    }
    for _ in 0..10 {
        second(&mut monitor, &mut container, 1, false);
    }
    assert!(!container.running);
}

#[test]
fn outcomes_are_told() {
    assert_eq!(suspend_outcome(Ok(())).message(), "Container suspended");
    assert_eq!(
        suspend_outcome(Err("gone".to_string())).message(),
        "Failed to suspend container: gone"
    );
    assert_eq!(start_outcome(Ok(())).message(), "Container started");
    assert_eq!(
        start_outcome(Err("gone".to_string())).message(),
        "Failed to start container: gone"
    );
    assert_eq!(Notice::MainLoopStarting.message(), "Starting main loop");
    assert_eq!(Notice::Suspending.message(), "Suspending container");
    assert_eq!(Notice::Starting.message(), "Starting container");
}

#[test]
fn messages_have_levels() {
    assert_eq!(Notice::Suspending.level(), Level::Debug);
    assert_eq!(Notice::Starting.level(), Level::Debug);
    assert_eq!(
        Notice::StatusUnknown { container: "web".to_string() }.level(),
        Level::Warn
    );
    assert_eq!(Notice::ThresholdHit.level(), Level::Info);
    assert_eq!(suspend_outcome(Err("gone".to_string())).level(), Level::Info);
}
