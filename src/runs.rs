//! What a session asks for over a whole run, and the laws of the three
//! operations.
use vstd::prelude::*;

use crate::client::{matching, Client};
use crate::error::HyprwsError;
use crate::session::{answer, close_all, move_all, plan, queries_needed, Action, Event, Operation, SessionModel, Step};

verus! {

/// The steps that a session in state `m` asks for when it is told `events`
/// in turn: the one asked for before each event, then the one after the last.
pub open spec fn requests(m: SessionModel, events: Seq<Event>) -> Seq<Step>
    decreases events.len(),
{
    if events.len() == 0 {
        seq![m.step()]
    } else {
        seq![m.step()] + requests(m.deliver(events[0]), events.drop_first())
    }
}

/// `n` accepted commands.
pub open spec fn acks(n: nat) -> Seq<Event> {
    Seq::new(n, |i: int| Event::Dispatched)
}

/// A step sending each of `actions`, in order.
pub open spec fn dispatches(actions: Seq<Action>) -> Seq<Step> {
    actions.map_values(|a: Action| Step::Dispatch(a))
}

/// `n` steps that each report the failure `e`.
pub open spec fn stopped(e: HyprwsError, n: nat) -> Seq<Step> {
    Seq::new(n, |i: int| Step::Finished(Err(e)))
}

/// A session that has all its listings and no failure, with `done` commands
/// accepted out of those they decide.
pub open spec fn acting(m: SessionModel) -> bool {
    &&& m.failed is None
    &&& m.listings.len() == queries_needed(m.op)
    &&& m.done <= m.commands().len()
}

/// Once a session has failed, it asks for nothing more: every step after
/// reports the same failure, whatever it is told.
pub proof fn failure_is_final(m: SessionModel, events: Seq<Event>)
    requires
        m.failed is Some,
    ensures
        requests(m, events) == stopped(m.failed->0, events.len() + 1),
    decreases events.len(),
{
    if events.len() > 0 {
        failure_is_final(m.deliver(events[0]), events.drop_first());
    }
    assert(requests(m, events) =~= stopped(m.failed->0, events.len() + 1));
}

/// A refused command ends the session: no command is sent after it, and the
/// session reports `CompositorDispatchFailed` from then on.
pub proof fn refusal_ends_session(m: SessionModel, events: Seq<Event>)
    requires
        m.step() is Dispatch,
    ensures
        requests(m.deliver(Event::DispatchFailed), events) == stopped(
            HyprwsError::CompositorDispatchFailed,
            events.len() + 1,
        ),
{
    failure_is_final(m.deliver(Event::DispatchFailed), events);
}

/// An acting session told that `k` commands were accepted sends the next `k`
/// of its commands, in order, and then stands `k` commands further on.
proof fn accepted_commands(m: SessionModel, k: nat, rest: Seq<Event>)
    requires
        acting(m),
        m.done + k <= m.commands().len(),
    ensures
        requests(m, acks(k) + rest) == dispatches(
            m.commands().subrange(m.done as int, (m.done + k) as int),
        ) + requests(SessionModel { done: m.done + k, ..m }, rest),
    decreases k,
{
    let evs = acks(k) + rest;
    if k == 0 {
        assert(evs =~= rest);
        assert(dispatches(m.commands().subrange(m.done as int, m.done as int)) =~= Seq::empty());
        assert(SessionModel { done: m.done + 0, ..m } == m);
        assert(requests(m, evs) =~= Seq::<Step>::empty() + requests(m, rest));
    } else {
        let m1 = m.deliver(Event::Dispatched);
        assert(evs[0] == Event::Dispatched);
        assert(evs.drop_first() =~= acks((k - 1) as nat) + rest);
        assert(m1 == SessionModel { done: m.done + 1, ..m });
        accepted_commands(m1, (k - 1) as nat, rest);
        assert(SessionModel { done: m1.done + (k - 1) as nat, ..m1 } == SessionModel {
            done: m.done + k,
            ..m
        });
        assert(dispatches(m.commands().subrange(m.done as int, (m.done + k) as int)) =~= seq![
            m.step(),
        ] + dispatches(m1.commands().subrange(m1.done as int, (m1.done + (k - 1) as nat) as int)));
        assert(requests(m, evs) =~= seq![m.step()] + requests(m1, evs.drop_first()));
    }
}

/// An acting session whose commands are all accepted sends each remaining
/// command once, in order, and then reports success.
proof fn all_accepted(m: SessionModel)
    requires
        acting(m),
    ensures
        requests(m, acks((m.commands().len() - m.done) as nat)) == dispatches(
            m.commands().subrange(m.done as int, m.commands().len() as int),
        ) + seq![Step::Finished(Ok(()))],
{
    let k = (m.commands().len() - m.done) as nat;
    accepted_commands(m, k, Seq::empty());
    assert(acks(k) + Seq::empty() =~= acks(k));
}

/// An acting session told that `k` commands were accepted and the next one
/// refused sends exactly `k + 1` of its commands, in order, and then reports
/// `CompositorDispatchFailed`, whatever follows.
proof fn refused_after(m: SessionModel, k: nat, rest: Seq<Event>)
    requires
        acting(m),
        m.done + k < m.commands().len(),
    ensures
        requests(m, acks(k) + seq![Event::DispatchFailed] + rest) == dispatches(
            m.commands().subrange(m.done as int, (m.done + k + 1) as int),
        ) + stopped(HyprwsError::CompositorDispatchFailed, rest.len() + 1),
{
    let tail = seq![Event::DispatchFailed] + rest;
    assert(acks(k) + seq![Event::DispatchFailed] + rest =~= acks(k) + tail);
    accepted_commands(m, k, tail);
    let mk = SessionModel { done: m.done + k, ..m };
    assert(tail[0] == Event::DispatchFailed);
    assert(tail.drop_first() =~= rest);
    refusal_ends_session(mk, rest);
    assert(requests(mk, tail) == seq![mk.step()] + requests(mk.deliver(tail[0]), tail.drop_first()));
    assert(dispatches(m.commands().subrange(m.done as int, (m.done + k + 1) as int)) =~= dispatches(
        m.commands().subrange(m.done as int, (m.done + k) as int),
    ) + seq![mk.step()]);
}

/// A fresh session of `op` told its listings `a`, then `b` if it needs two,
/// stands acting, at its first command.
proof fn listed(op: Operation, a: Vec<Client>, b: Vec<Client>)
    ensures
        ({
            let m1 = SessionModel::start(op).deliver(Event::Clients(a));
            &&& SessionModel::start(op).step() == Step::Query
            &&& queries_needed(op) == 1 ==> acting(m1) && m1.done == 0
                && m1.commands() == answer(op, 0, a@)
            &&& queries_needed(op) == 2 ==> m1.step() == Step::Query
                && acting(m1.deliver(Event::Clients(b)))
                && m1.deliver(Event::Clients(b)).done == 0
                && m1.deliver(Event::Clients(b)).commands() == answer(op, 0, a@) + answer(op, 1, b@)
        }),
{
    let m1 = SessionModel::start(op).deliver(Event::Clients(a));
    assert(m1.listings.drop_last() =~= Seq::<Seq<Client>>::empty());
    assert(plan(op, m1.listings) =~= answer(op, 0, a@));
    let m2 = m1.deliver(Event::Clients(b));
    if queries_needed(op) == 2 {
        assert(m2.listings.drop_last() =~= m1.listings);
        assert(m2.listings.last() == b@);
    }
}

/// Kill lists the windows once, then sends one close command for each window
/// of `target` that is not pinned, in the order of the listing (none where
/// there is none), then reports success.
pub proof fn kill_closes_each_selected_window(target: i32, clients: Vec<Client>)
    ensures
        requests(
            SessionModel::start(Operation::Kill { target }),
            seq![Event::Clients(clients)] + acks(matching(clients@, target).len()),
        ) == seq![Step::Query] + dispatches(close_all(matching(clients@, target))) + seq![
            Step::Finished(Ok(())),
        ],
{
    let op = Operation::Kill { target };
    let evs = seq![Event::Clients(clients)] + acks(matching(clients@, target).len());
    listed(op, clients, clients);
    let m1 = SessionModel::start(op).deliver(Event::Clients(clients));
    all_accepted(m1);
    assert(evs[0] == Event::Clients(clients));
    assert(evs.drop_first() =~= acks(matching(clients@, target).len()));
    assert(m1.commands().subrange(0, m1.commands().len() as int) =~= m1.commands());
}

/// Dump lists the windows once, then sends one command moving each window of
/// `start` that is not pinned to `end`, in the order of the listing, then
/// reports success. The windows already on `end` are not among those moved.
pub proof fn dump_moves_each_selected_window(start: i32, end: i32, clients: Vec<Client>)
    ensures
        requests(
            SessionModel::start(Operation::Dump { start, end }),
            seq![Event::Clients(clients)] + acks(matching(clients@, start).len()),
        ) == seq![Step::Query] + dispatches(move_all(matching(clients@, start), end)) + seq![
            Step::Finished(Ok(())),
        ],
        start != end ==> forall|c: Client|
            c.workspace == end ==> !matching(clients@, start).contains(c),
{
    let op = Operation::Dump { start, end };
    let evs = seq![Event::Clients(clients)] + acks(matching(clients@, start).len());
    listed(op, clients, clients);
    let m1 = SessionModel::start(op).deliver(Event::Clients(clients));
    all_accepted(m1);
    assert(evs[0] == Event::Clients(clients));
    assert(evs.drop_first() =~= acks(matching(clients@, start).len()));
    assert(m1.commands().subrange(0, m1.commands().len() as int) =~= m1.commands());
    broadcast use vstd::seq_lib::group_filter_ensures;
}

/// Swap lists the windows twice before it sends anything, then moves each
/// window of `start` in the first listing to `end`, then each window of
/// `end` in the second listing to `start` (pinned windows excepted, in the
/// order of the listings), then reports success.
pub proof fn swap_exchanges_selected_windows(start: i32, end: i32, a: Vec<Client>, b: Vec<Client>)
    ensures
        ({
            let moves = move_all(matching(a@, start), end) + move_all(matching(b@, end), start);
            requests(
                SessionModel::start(Operation::Swap { start, end }),
                seq![Event::Clients(a), Event::Clients(b)] + acks(moves.len()),
            ) == seq![Step::Query, Step::Query] + dispatches(moves) + seq![Step::Finished(Ok(()))]
        }),
{
    let op = Operation::Swap { start, end };
    let moves = move_all(matching(a@, start), end) + move_all(matching(b@, end), start);
    let evs = seq![Event::Clients(a), Event::Clients(b)] + acks(moves.len());
    listed(op, a, b);
    let m1 = SessionModel::start(op).deliver(Event::Clients(a));
    let m2 = m1.deliver(Event::Clients(b));
    all_accepted(m2);
    assert(evs[0] == Event::Clients(a));
    assert(evs.drop_first()[0] == Event::Clients(b));
    assert(evs.drop_first().drop_first() =~= acks(moves.len()));
    assert(m2.commands().subrange(0, m2.commands().len() as int) =~= m2.commands());
    assert(requests(m1, evs.drop_first()) == seq![m1.step()] + requests(m2, acks(moves.len())));
    assert(requests(SessionModel::start(op), evs) =~= seq![Step::Query, Step::Query] + dispatches(
        moves,
    ) + seq![Step::Finished(Ok(()))]);
}

/// Swap where the first `k` moves are accepted and the next refused: both
/// listings were taken before any move, the moves sent are the first `k + 1`
/// that those listings decide, and the session then reports
/// `CompositorDispatchFailed`, whatever follows.
pub proof fn swap_stops_at_first_refusal(
    start: i32,
    end: i32,
    a: Vec<Client>,
    b: Vec<Client>,
    k: nat,
    rest: Seq<Event>,
)
    requires
        k < matching(a@, start).len() + matching(b@, end).len(),
    ensures
        ({
            let moves = move_all(matching(a@, start), end) + move_all(matching(b@, end), start);
            requests(
                SessionModel::start(Operation::Swap { start, end }),
                seq![Event::Clients(a), Event::Clients(b)] + acks(k) + seq![Event::DispatchFailed]
                    + rest,
            ) == seq![Step::Query, Step::Query] + dispatches(moves.take(k + 1 as int)) + stopped(
                HyprwsError::CompositorDispatchFailed,
                rest.len() + 1,
            )
        }),
{
    let op = Operation::Swap { start, end };
    let moves = move_all(matching(a@, start), end) + move_all(matching(b@, end), start);
    let tail = acks(k) + seq![Event::DispatchFailed] + rest;
    let evs = seq![Event::Clients(a), Event::Clients(b)] + acks(k) + seq![Event::DispatchFailed]
        + rest;
    listed(op, a, b);
    let m1 = SessionModel::start(op).deliver(Event::Clients(a));
    let m2 = m1.deliver(Event::Clients(b));
    refused_after(m2, k, rest);
    assert(evs[0] == Event::Clients(a));
    assert(evs.drop_first()[0] == Event::Clients(b));
    assert(evs.drop_first().drop_first() =~= tail);
    assert(m2.commands().subrange(0, k + 1 as int) =~= moves.take(k + 1 as int));
    assert(requests(m1, evs.drop_first()) == seq![m1.step()] + requests(m2, tail));
    assert(requests(SessionModel::start(op), evs) =~= seq![Step::Query, Step::Query] + dispatches(
        moves.take(k + 1 as int),
    ) + stopped(HyprwsError::CompositorDispatchFailed, rest.len() + 1));
}

} // verus!
