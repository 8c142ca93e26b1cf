//! What holds of every interval, and of every run of intervals.

use crate::args::Args;
use crate::duration::Span;
use crate::monitor::{Action, Monitor};
use crate::rounds::Round;
use vstd::prelude::*;

verus! {

/// An action is among those of the interval.
pub open spec fn does(m: Monitor, r: Round, action: Action) -> bool {
    crate::rounds::driven_actions(m, r, 5).contains(action)
}

/// The monitor at the end of the interval.
pub open spec fn end_of(m: Monitor, r: Round) -> Monitor {
    crate::rounds::driven(m, r, 5)
}

/// The monitor is at rest and the interval's packet counter has not run
/// backwards.
pub open spec fn may_begin(m: Monitor, r: Round) -> bool {
    crate::rounds::at_rest(m) && r.received >= m.packet_count
}

/// The monitor after a run of intervals.
pub open spec fn played(m: Monitor, rounds: Seq<Round>) -> Monitor
    decreases rounds.len(),
{
    if rounds.len() == 0 {
        m
    } else {
        end_of(played(m, rounds.drop_last()), rounds.last())
    }
}

/// The monitor before the `k`th interval of a run.
pub open spec fn before(m: Monitor, rounds: Seq<Round>, k: int) -> Monitor {
    played(m, rounds.take(k))
}

/// The packet counter does not run backwards in a run.
pub open spec fn counts_up(m: Monitor, rounds: Seq<Round>) -> bool {
    &&& forall|i: int| 0 <= i < rounds.len() ==> (#[trigger] rounds[i]).received >= m.packet_count
    &&& forall|i: int, j: int|
        0 <= i < j < rounds.len() ==> (#[trigger] rounds[i]).received <= (
        #[trigger] rounds[j]).received
}

/// The packets that the intervals of a run brought, added up.
pub open spec fn packets_in(m: Monitor, rounds: Seq<Round>) -> int
    decreases rounds.len(),
{
    if rounds.len() == 0 {
        0
    } else {
        packets_in(m, rounds.drop_last()) + (rounds.last().received - played(
            m,
            rounds.drop_last(),
        ).packet_count)
    }
}

/// The interval calls for the container to be kept up: it counts as active, and
/// whether it is running is known.
pub open spec fn keeps_up(m: Monitor, r: Round) -> bool {
    r.running is Some && crate::rounds::active_in(m, r)
}

/// The interval finds the container running though it counts as idle.
pub open spec fn idles(m: Monitor, r: Round) -> bool {
    r.running == Some(true) && !crate::rounds::active_in(m, r)
}

/// The interval puts an end to a pending suspension: it keeps the container up,
/// or finds it running idle and the suspension finished.
pub open spec fn ends_suspension(m: Monitor, r: Round) -> bool {
    keeps_up(m, r) || (idles(m, r) && r.finished)
}

/// The `k`th interval of a run found the container running idle with no
/// suspension pending, scheduled one at time `at`, and no later interval put an
/// end to it.
pub open spec fn stands_since(m: Monitor, rounds: Seq<Round>, k: int, at: Span) -> bool {
    &&& 0 <= k < rounds.len()
    &&& idles(before(m, rounds, k), rounds[k])
    &&& before(m, rounds, k).suspension is None
    &&& rounds[k].now == at
    &&& forall|j: int|
        k < j < rounds.len() ==> !ends_suspension(before(m, rounds, j), #[trigger] rounds[j])
}

/// In every interval: a container is started exactly if it counts as active and
/// is not running; a suspension is scheduled, after the timeout, exactly if the
/// container is running idle and none is pending; the container is suspended
/// without a wait exactly if it is running idle and there is no timeout; a
/// suspension is called off exactly if the container counts as active, with its
/// status known, and one is pending.
pub proof fn law_measures(m: Monitor, r: Round)
    requires
        may_begin(m, r),
    ensures
        does(m, r, Action::StartContainer) <==> keeps_up(m, r) && r.running == Some(false),
        forall|delay: Span| #[trigger]
            does(m, r, Action::ScheduleSuspension { delay }) <==> idles(m, r) && m.suspension
                is None && m.args.timeout == Some(delay),
        does(m, r, Action::SuspendContainer) <==> idles(m, r) && m.args.timeout is None,
        does(m, r, Action::AbortSuspension) <==> keeps_up(m, r) && m.suspension is Some,
{
    crate::rounds::law_round(m, r, 5);
    let inquiries = crate::rounds::inquiries(m);
    let measures = crate::rounds::measures(m, r);
    let all = crate::rounds::driven_actions(m, r, 5);
    let n = inquiries.len() as int;
    assert(all == inquiries + measures);
    assert forall|a: Action|
        !(a is AwaitTick) && !(a is ProbeSockets) && !(a is InspectContainer) implies (
    #[trigger] all.contains(a) <==> measures.contains(a)) by {
        if measures.contains(a) {
            let i = choose|i: int| 0 <= i < measures.len() && measures[i] == a;
            assert(all[n + i] == a);
        }
        if all.contains(a) {
            let i = choose|i: int| 0 <= i < all.len() && all[i] == a;
            assert(i >= n);
            assert(measures[i - n] == a);
        }
    }
    assert(keeps_up(m, r) && m.suspension is Some ==> measures.len() > 0 && measures[0]
        == Action::AbortSuspension);
    assert(keeps_up(m, r) && r.running == Some(false) ==> measures.len() > 0 && measures[
    measures.len() - 1] == Action::StartContainer);
    assert forall|delay: Span| #[trigger]
        does(m, r, Action::ScheduleSuspension { delay }) <==> idles(m, r) && m.suspension is None
            && m.args.timeout == Some(delay) by {
        if idles(m, r) && m.suspension is None && m.args.timeout == Some(delay) {
            assert(measures[0] == Action::ScheduleSuspension { delay });
        }
    }
    assert(idles(m, r) && m.args.timeout is None ==> measures[0] == Action::SuspendContainer);
}

/// While its status is unknown the container is left alone: the interval counts
/// the packets and changes nothing else.
pub proof fn law_unknown_status_changes_nothing(m: Monitor, r: Round)
    requires
        may_begin(m, r),
        r.running is None,
    ensures
        crate::rounds::driven_actions(m, r, 5) == crate::rounds::inquiries(m),
        end_of(m, r) == (Monitor { packet_count: r.received as u128, ..m }),
{
    crate::rounds::law_round(m, r, 5);
    assert(crate::rounds::inquiries(m) + Seq::<Action>::empty() =~= crate::rounds::inquiries(m));
}

/// A stopped container without activity stays as it is, and so does a
/// suspension that is still pending.
pub proof fn law_stopped_idle_container_is_left_alone(m: Monitor, r: Round)
    requires
        may_begin(m, r),
        r.running == Some(false),
        !crate::rounds::active_in(m, r),
    ensures
        crate::rounds::driven_actions(m, r, 5) == crate::rounds::inquiries(m),
        end_of(m, r) == (Monitor { packet_count: r.received as u128, ..m }),
{
    crate::rounds::law_round(m, r, 5);
    assert(crate::rounds::inquiries(m) + Seq::<Action>::empty() =~= crate::rounds::inquiries(m));
}

/// An interval that calls for the container to be kept up leaves no suspension
/// pending, schedules none, and does not suspend the container.
pub proof fn law_activity_leaves_no_suspension(m: Monitor, r: Round)
    requires
        may_begin(m, r),
        keeps_up(m, r),
    ensures
        end_of(m, r).suspension is None,
        !does(m, r, Action::SuspendContainer),
        forall|delay: Span| !#[trigger] does(m, r, Action::ScheduleSuspension { delay }),
{
    crate::rounds::law_round(m, r, 5);
    law_measures(m, r);
}

/// An open connection counts whatever the traffic is, if connections are to be
/// preserved: the container is neither suspended nor due to be.
pub proof fn law_connection_is_preserved(m: Monitor, r: Round)
    requires
        may_begin(m, r),
        m.args.port is Some,
        m.args.preserve_connection,
        r.connected,
        r.running is Some,
    ensures
        end_of(m, r).suspension is None,
        !does(m, r, Action::SuspendContainer),
        forall|delay: Span| !#[trigger] does(m, r, Action::ScheduleSuspension { delay }),
        r.running == Some(false) ==> does(m, r, Action::StartContainer),
{
    law_activity_leaves_no_suspension(m, r);
    law_measures(m, r);
}

/// If connections are not to be preserved, only the traffic counts: with and
/// without a connection the interval takes the same course.
pub proof fn law_connection_is_ignored(m: Monitor, r: Round)
    requires
        may_begin(m, r),
        !m.args.preserve_connection,
    ensures
        end_of(m, r) == end_of(m, Round { connected: !r.connected, ..r }),
        crate::rounds::driven_actions(m, r, 5) == crate::rounds::driven_actions(
            m,
            Round { connected: !r.connected, ..r },
            5,
        ),
{
    crate::rounds::law_round(m, r, 5);
    crate::rounds::law_round(m, Round { connected: !r.connected, ..r }, 5);
}

/// More packets never make an active container idle, and reaching the
/// threshold is enough.
pub proof fn law_traffic_counts_from_the_threshold(args: Args, p: int, q: int, connected: bool)
    ensures
        args.active(p, connected) && p <= q ==> args.active(q, connected),
        args.active(args.threshold as int, connected),
        args.active(args.threshold - 1, false) == false,
{
}

/// Activity starts the wait over: the first idle interval after one that kept
/// the container up schedules a suspension anew, after the whole timeout.
pub proof fn law_activity_restarts_the_wait(m: Monitor, busy: Round, idle: Round, delay: Span)
    requires
        may_begin(m, busy),
        keeps_up(m, busy),
        idle.received >= busy.received,
        idles(end_of(m, busy), idle),
        m.args.timeout == Some(delay),
    ensures
        does(end_of(m, busy), idle, Action::ScheduleSuspension { delay }),
        end_of(end_of(m, busy), idle).suspension == Some(idle.now),
{
    crate::rounds::law_round(m, busy, 5);
    crate::rounds::law_round(end_of(m, busy), idle, 5);
    law_measures(end_of(m, busy), idle);
}

/// A suspension that has finished is forgotten by the next interval that finds
/// the container running idle, and the one after that schedules another.
pub proof fn law_finished_suspension_is_followed_up(
    m: Monitor,
    first: Round,
    second: Round,
    delay: Span,
)
    requires
        may_begin(m, first),
        m.suspension is Some,
        idles(m, first),
        first.finished,
        second.received >= first.received,
        idles(end_of(m, first), second),
        m.args.timeout == Some(delay),
    ensures
        forall|d: Span| !#[trigger] does(m, first, Action::ScheduleSuspension { delay: d }),
        end_of(m, first).suspension is None,
        does(end_of(m, first), second, Action::ScheduleSuspension { delay }),
        end_of(end_of(m, first), second).suspension == Some(second.now),
{
    crate::rounds::law_round(m, first, 5);
    crate::rounds::law_round(end_of(m, first), second, 5);
    law_measures(m, first);
    law_measures(end_of(m, first), second);
}

/// The time left of a wait never grows, is the whole delay at its beginning,
/// and is none exactly from the moment on that the delay is over.
pub proof fn law_time_left(since: Span, delay: Span, now: Span, later: Span)
    requires
        now.total() <= later.total(),
    ensures
        crate::duration::time_left(since, delay, later) <= crate::duration::time_left(
            since,
            delay,
            now,
        ),
        crate::duration::time_left(since, delay, since) == delay.total(),
        crate::duration::time_left(since, delay, now) == 0 <==> now.total() >= since.total()
            + delay.total(),
{
}

/// Every run leaves the monitor at rest, with its options unchanged and the
/// packets counted that the last interval reported.
pub proof fn law_run(m: Monitor, rounds: Seq<Round>)
    requires
        crate::rounds::at_rest(m),
        counts_up(m, rounds),
    ensures
        crate::rounds::at_rest(played(m, rounds)),
        played(m, rounds).args == m.args,
        played(m, rounds).packet_count == (if rounds.len() == 0 {
            m.packet_count
        } else {
            rounds.last().received as u128
        }),
    decreases rounds.len(),
{
    if rounds.len() > 0 {
        let rest = rounds.drop_last();
        assert(rest =~= rounds.take(rounds.len() - 1));
        lemma_prefix_counts_up(m, rounds, rounds.len() - 1);
        law_run(m, rest);
        assert(rest.len() > 0 ==> rest.last() == rounds[rounds.len() - 2]);
        crate::rounds::law_round(played(m, rest), rounds.last(), 5);
    }
}

/// Without a timeout no suspension is ever pending, and none is ever scheduled.
pub proof fn law_no_wait_without_a_timeout(m: Monitor, rounds: Seq<Round>, r: Round)
    requires
        crate::rounds::at_rest(m),
        m.args.timeout is None,
        counts_up(m, rounds),
        may_begin(played(m, rounds), r),
    ensures
        played(m, rounds).suspension is None,
        forall|delay: Span| !#[trigger]
            does(played(m, rounds), r, Action::ScheduleSuspension { delay }),
{
    law_run(m, rounds);
    law_measures(played(m, rounds), r);
}

/// No packet is counted twice or missed: what the intervals of a run brought
/// adds up to how far the counter has come.
pub proof fn law_packets_add_up(m: Monitor, rounds: Seq<Round>)
    requires
        crate::rounds::at_rest(m),
        counts_up(m, rounds),
    ensures
        packets_in(m, rounds) == played(m, rounds).packet_count - m.packet_count,
    decreases rounds.len(),
{
    law_run(m, rounds);
    if rounds.len() > 0 {
        lemma_prefix_counts_up(m, rounds, rounds.len() - 1);
        assert(rounds.take(rounds.len() - 1) =~= rounds.drop_last());
        law_packets_add_up(m, rounds.drop_last());
    }
}

/// A suspension that is pending after a run was scheduled, at the time that the
/// monitor holds, by an interval that found the container running idle, and no
/// interval since has found it active or the suspension finished.
pub proof fn law_pending_suspension_goes_back_to_idleness(
    m: Monitor,
    rounds: Seq<Round>,
    at: Span,
)
    requires
        crate::rounds::at_rest(m),
        m.suspension is None,
        counts_up(m, rounds),
        played(m, rounds).suspension == Some(at),
    ensures
        exists|k: int| stands_since(m, rounds, k, at),
    decreases rounds.len(),
{
    let n = rounds.len() - 1;
    let rest = rounds.drop_last();
    assert(rest =~= rounds.take(n));
    lemma_prefix_counts_up(m, rounds, n);
    law_run(m, rest);
    law_run(m, rounds);
    let mid = played(m, rest);
    assert(rest.len() > 0 ==> rest.last() == rounds[n - 1]);
    crate::rounds::law_round(mid, rounds.last(), 5);
    if mid.suspension is None {
        assert(stands_since(m, rounds, n, at));
    } else {
        law_pending_suspension_goes_back_to_idleness(m, rest, at);
        let k = choose|k: int| stands_since(m, rest, k, at);
        assert(rest.take(k) =~= rounds.take(k));
        assert forall|j: int| k < j < rounds.len() implies !ends_suspension(
            before(m, rounds, j),
            #[trigger] rounds[j],
        ) by {
            if j < n {
                assert(rest[j] == rounds[j]);
                assert(rest.take(j) =~= rounds.take(j));
            }
        }
        assert(stands_since(m, rounds, k, at));
    }
}

/// A wait is not drawn out: as long as no interval puts an end to it, a pending
/// suspension stays the one that was scheduled, and no other is scheduled.
pub proof fn law_wait_is_not_drawn_out(m: Monitor, rounds: Seq<Round>)
    requires
        crate::rounds::at_rest(m),
        m.suspension is Some,
        counts_up(m, rounds),
        forall|j: int|
            0 <= j < rounds.len() ==> !ends_suspension(before(m, rounds, j), #[trigger] rounds[j]),
    ensures
        played(m, rounds).suspension == m.suspension,
        forall|j: int, delay: Span|
            0 <= j < rounds.len() ==> !#[trigger] does(
                before(m, rounds, j),
                rounds[j],
                Action::ScheduleSuspension { delay },
            ),
    decreases rounds.len(),
{
    if rounds.len() > 0 {
        let n = rounds.len() - 1;
        let rest = rounds.drop_last();
        assert(rest =~= rounds.take(n));
        lemma_prefix_counts_up(m, rounds, n);
        assert forall|j: int| 0 <= j < rest.len() implies !ends_suspension(
            before(m, rest, j),
            #[trigger] rest[j],
        ) by {
            assert(rest[j] == rounds[j]);
            assert(rest.take(j) =~= rounds.take(j));
        }
        law_wait_is_not_drawn_out(m, rest);
        law_run(m, rest);
        let mid = played(m, rest);
        assert(rest.len() > 0 ==> rest.last() == rounds[n - 1]);
        assert(!ends_suspension(before(m, rounds, n), rounds[n]));
        crate::rounds::law_round(mid, rounds.last(), 5);
        law_measures(mid, rounds.last());
        assert forall|j: int, delay: Span| 0 <= j < rounds.len() implies !#[trigger] does(
            before(m, rounds, j),
            rounds[j],
            Action::ScheduleSuspension { delay },
        ) by {
            if j < n {
                assert(rest[j] == rounds[j]);
                assert(rest.take(j) =~= rounds.take(j));
                assert(!does(before(m, rest, j), rest[j], Action::ScheduleSuspension { delay }));
            }
        }
    }
}

proof fn lemma_prefix_counts_up(m: Monitor, rounds: Seq<Round>, k: int)
    requires
        counts_up(m, rounds),
        0 <= k <= rounds.len(),
    ensures
        counts_up(m, rounds.take(k)),
{
    let rest = rounds.take(k);
    assert forall|i: int| 0 <= i < rest.len() implies (#[trigger] rest[i]).received
        >= m.packet_count by {
        assert(rest[i] == rounds[i]);
    }
    assert forall|i: int, j: int| 0 <= i < j < rest.len() implies (#[trigger] rest[i]).received <= (
    #[trigger] rest[j]).received by {
        assert(rest[i] == rounds[i] && rest[j] == rounds[j]);
    }
}

} // verus!
