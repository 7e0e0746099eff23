//! What holds of every logger, whatever its callers and its writer do and in
//! whatever order they take their turns.

use crate::logger::{LogResult, LoggerState, WorkerState, WorkerStep};
use crate::message::record_text;
use vstd::prelude::*;

verus! {

/// One turn taken on a logger.
pub enum Event {
    /// A caller offers a line.
    Offer(Seq<char>),
    /// The writer asks for work.
    Poll,
    /// The handle lets go of its sending side.
    Close,
    /// The writer reports that appending failed.
    WriteFailure,
}

/// The logger after one turn.
pub open spec fn step(s: LoggerState, e: Event) -> LoggerState {
    match e {
        Event::Offer(line) => s.after_offer(line),
        Event::Poll => s.after_poll(),
        Event::Close => s.after_close(),
        Event::WriteFailure => s.after_write_failure(),
    }
}

/// The logger after the turns `events`, taken in order.
pub open spec fn run(s: LoggerState, events: Seq<Event>) -> LoggerState
    decreases events.len(),
{
    if events.len() == 0 {
        s
    } else {
        step(run(s, events.drop_last()), events.last())
    }
}

/// The lines offered during `events` that were accepted, in the order in
/// which they were offered.
pub open spec fn taken(s: LoggerState, events: Seq<Event>) -> Seq<Seq<char>>
    decreases events.len(),
{
    if events.len() == 0 {
        Seq::empty()
    } else {
        let before = run(s, events.drop_last());
        let earlier = taken(s, events.drop_last());
        match events.last() {
            Event::Offer(line) => if before.offer_result(line) is Accepted {
                earlier.push(line)
            } else {
                earlier
            },
            _ => earlier,
        }
    }
}

/// `n` turns of the writer asking for work.
pub open spec fn polls(n: nat) -> Seq<Event> {
    Seq::new(n, |i: int| Event::Poll)
}

/// One offer for each of `lines`, in order.
pub open spec fn offers(lines: Seq<Seq<char>>) -> Seq<Event> {
    Seq::new(lines.len(), |i: int| Event::Offer(lines[i]))
}

/// No turn breaks a logger: the capacity stays respected, and every accepted
/// line is either handed to the writer or still pending, in the order of
/// acceptance.
pub proof fn law_step_keeps_invariant(s: LoggerState, e: Event)
    requires
        s.wf(),
    ensures
        step(s, e).wf(),
{
    let t = step(s, e);
    match e {
        Event::Offer(line) => {
            if s.offer_result(line) is Accepted {
                assert(t.accepted =~= t.written + t.channel.pending);
            }
        },
        Event::Poll => {
            if s.worker == WorkerState::Running && !s.channel.is_empty() {
                assert(t.accepted =~= t.written + t.channel.pending);
            }
        },
        Event::Close => {},
        Event::WriteFailure => {},
    }
}

/// No sequence of turns breaks a logger.
pub proof fn law_run_keeps_invariant(s: LoggerState, events: Seq<Event>)
    requires
        s.wf(),
    ensures
        run(s, events).wf(),
    decreases events.len(),
{
    if events.len() > 0 {
        law_run_keeps_invariant(s, events.drop_last());
        law_step_keeps_invariant(run(s, events.drop_last()), events.last());
    }
}

/// Order is kept. After any turns, the accepted lines are those accepted
/// before, followed by the lines accepted during the turns in the order of
/// their offers; and the lines handed to the writer are the first of the
/// accepted lines, without a gap and in the same order.
pub proof fn law_order_kept(s: LoggerState, events: Seq<Event>)
    requires
        s.wf(),
    ensures
        run(s, events).accepted == s.accepted + taken(s, events),
        run(s, events).written.is_prefix_of(run(s, events).accepted),
        s.written.is_prefix_of(run(s, events).written),
    decreases events.len(),
{
    law_run_keeps_invariant(s, events);
    let t = run(s, events);
    assert(t.written.is_prefix_of(t.accepted)) by {
        assert(t.accepted == t.written + t.channel.pending);
        assert(t.written =~= t.accepted.subrange(0, t.written.len() as int));
    }
    if events.len() == 0 {
        assert(s.accepted + taken(s, events) =~= s.accepted);
        assert(s.written =~= t.written.subrange(0, s.written.len() as int));
    } else {
        let before = run(s, events.drop_last());
        law_order_kept(s, events.drop_last());
        law_run_keeps_invariant(s, events.drop_last());
        assert(t.accepted =~= s.accepted + taken(s, events));
        assert(before.written.is_prefix_of(t.written)) by {
            assert(before.written =~= t.written.subrange(0, before.written.len() as int));
        }
        assert(s.written =~= t.written.subrange(0, s.written.len() as int));
    }
}

/// Nothing is left behind at release. Once the handle has closed and the
/// writer has exited, nothing is pending and the lines handed to the writer
/// are exactly the accepted lines.
pub proof fn law_flushed_when_released(s: LoggerState)
    requires
        s.wf(),
        s.released(),
    ensures
        s.channel.pending.len() == 0,
        s.written == s.accepted,
{
    assert(s.written + s.channel.pending =~= s.written);
}

/// No loss. If a logger that starts out fresh is released after some turns,
/// then the lines handed to the writer are exactly the lines accepted during
/// those turns, as many and in the order of their offers.
pub proof fn law_no_loss(filename: Seq<char>, capacity: nat, events: Seq<Event>)
    requires
        capacity >= 1,
        run(LoggerState::fresh(filename, capacity), events).released(),
    ensures
        run(LoggerState::fresh(filename, capacity), events).written == taken(
            LoggerState::fresh(filename, capacity),
            events,
        ),
{
    let s = LoggerState::fresh(filename, capacity);
    assert(s.accepted =~= s.written + s.channel.pending);
    law_order_kept(s, events);
    law_run_keeps_invariant(s, events);
    law_flushed_when_released(run(s, events));
    assert(s.accepted + taken(s, events) =~= taken(s, events));
}

/// The release waits for the flush. While a line is pending, or the writer
/// has not exited, the logger is not released.
pub proof fn law_release_waits(s: LoggerState)
    requires
        s.wf(),
        s.channel.pending.len() > 0 || s.worker != WorkerState::Exited || s.is_open(),
    ensures
        !s.released(),
{
}

/// Closing drains. Once the handle has let go of its sending side, a running
/// writer that asks for work once more than there are pending lines is told
/// to write each of them in order, exits, and the logger is released with
/// every accepted line handed to the writer.
pub proof fn law_close_then_drain(s: LoggerState)
    requires
        s.wf(),
        !s.is_open(),
        s.worker == WorkerState::Running,
    ensures
        run(s, polls(s.channel.pending.len() + 1)).released(),
        run(s, polls(s.channel.pending.len() + 1)).written == s.accepted,
        run(s, polls(s.channel.pending.len() + 1)).accepted == s.accepted,
    decreases s.channel.pending.len(),
{
    let n = s.channel.pending.len();
    let all = polls(n + 1);
    lemma_run_first(s, all);
    assert(all.drop_first() =~= polls(n));
    let t = s.after_poll();
    law_step_keeps_invariant(s, Event::Poll);
    if n == 0 {
        assert(polls(0).len() == 0);
        assert(t.written + t.channel.pending =~= t.written);
    } else {
        assert(t.channel.pending.len() == n - 1);
        law_close_then_drain(t);
    }
}

/// Taking the first turn and then the rest is taking all of them.
pub proof fn lemma_run_first(s: LoggerState, events: Seq<Event>)
    requires
        events.len() > 0,
    ensures
        run(s, events) == run(step(s, events.first()), events.drop_first()),
    decreases events.len(),
{
    if events.len() == 1 {
        assert(events.drop_last().len() == 0);
        assert(events.drop_first().len() == 0);
    } else {
        let front = events.drop_last();
        lemma_run_first(s, front);
        assert(front.first() == events.first());
        assert(front.drop_first() =~= events.drop_first().drop_last());
        assert(events.drop_first().last() == events.last());
    }
}

/// Backpressure. An offer to an open logger whose channel is full is
/// neither refused nor dropped: the line comes back unchanged and the logger
/// stays as it was. The writer's next turn takes the oldest line out, and
/// the same offer is then accepted.
pub proof fn law_backpressure(s: LoggerState, line: Seq<char>)
    requires
        s.wf(),
        s.is_open(),
        s.worker == WorkerState::Running,
        s.channel.is_full(),
    ensures
        s.offer_result(line) == LogResult::Blocked(line),
        s.after_offer(line) == s,
        s.poll_result() == WorkerStep::Write(record_text(s.accepted[s.written.len() as int])),
        s.after_poll().offer_result(line) == LogResult::Accepted,
        s.after_poll().after_offer(line).accepted == s.accepted.push(line),
{
}

/// A fresh logger of capacity `capacity` whose writer takes no turn accepts
/// exactly `capacity` lines, and blocks the next one.
pub proof fn law_fills_to_capacity(
    filename: Seq<char>,
    capacity: nat,
    lines: Seq<Seq<char>>,
    next: Seq<char>,
)
    requires
        capacity >= 1,
        lines.len() == capacity,
    ensures
        run(LoggerState::fresh(filename, capacity), offers(lines)).accepted == lines,
        run(LoggerState::fresh(filename, capacity), offers(lines)).channel.pending == lines,
        run(LoggerState::fresh(filename, capacity), offers(lines)).offer_result(next)
            == LogResult::Blocked(next),
{
    lemma_offers_queue(filename, capacity, lines);
}

/// While there is room, a fresh logger whose writer takes no turn queues
/// every line offered.
pub proof fn lemma_offers_queue(filename: Seq<char>, capacity: nat, lines: Seq<Seq<char>>)
    requires
        capacity >= 1,
        lines.len() <= capacity,
    ensures
        run(LoggerState::fresh(filename, capacity), offers(lines)) == (LoggerState {
            channel: crate::channel::ChannelState {
                pending: lines,
                ..LoggerState::fresh(filename, capacity).channel
            },
            accepted: lines,
            ..LoggerState::fresh(filename, capacity)
        }),
    decreases lines.len(),
{
    let s = LoggerState::fresh(filename, capacity);
    if lines.len() == 0 {
        assert(offers(lines).len() == 0);
        assert(lines =~= Seq::empty());
    } else {
        let front = lines.drop_last();
        lemma_offers_queue(filename, capacity, front);
        assert(offers(lines).drop_last() =~= offers(front));
        assert(offers(lines).last() == Event::Offer(lines.last()));
        assert(front.push(lines.last()) =~= lines);
    }
}

} // verus!
