//! The mining scheduler: a wall-clock ticker that fires once per block
//! interval. The node loop evaluates it once per iteration, so the ticker
//! itself must guard against firing twice in one interval; it fires only
//! when the elapsed time sits at an interval boundary in a window no tick
//! has fired in yet.

use vstd::prelude::*;

verus! {

/// The scheduler's state: the fixed block interval in whole seconds, and
/// the last window it fired in, if any.
#[derive(Clone, Copy, Debug, PartialEq, Eq, Structural)]
pub struct MiningScheduler {
    pub interval: u64,
    pub last_fired_window: Option<u64>,
}

impl MiningScheduler {
    /// A scheduler never fires with a zero interval ruled out.
    pub open spec fn wf(&self) -> bool {
        self.interval >= 1
    }

    /// A fresh scheduler that has never fired.
    pub fn new(interval: u64) -> (s: MiningScheduler)
        requires
            interval >= 1,
        ensures
            s.wf(),
            s.interval == interval,
            s.last_fired_window is None,
    {
        MiningScheduler { interval, last_fired_window: None }
    }
}

/// Whether a tick at `elapsed` seconds fires: the elapsed time sits on an
/// interval boundary, and the scheduler has not fired in this window nor in
/// any later one.
pub open spec fn fire_cond(s: MiningScheduler, elapsed: u64) -> bool {
    &&& s.interval >= 1
    &&& elapsed % s.interval == 0
    &&& match s.last_fired_window {
        None => true,
        Some(w) => w < elapsed / s.interval,
    }
}

/// The scheduler after one tick at `elapsed` seconds.
pub open spec fn sched_step(s: MiningScheduler, elapsed: u64) -> MiningScheduler {
    if fire_cond(s, elapsed) {
        MiningScheduler { last_fired_window: Some(elapsed / s.interval), ..s }
    } else {
        s
    }
}

/// The scheduler after ticking through `es` in order.
pub open spec fn sched_run(s: MiningScheduler, es: Seq<u64>) -> MiningScheduler
    decreases es.len(),
{
    if es.len() == 0 {
        s
    } else {
        sched_run(sched_step(s, es[0]), es.drop_first())
    }
}

/// Whether the tick at position `i` of `es` fires.
pub open spec fn fires_at(s: MiningScheduler, es: Seq<u64>, i: int) -> bool {
    fire_cond(sched_run(s, es.take(i)), es[i])
}

impl MiningScheduler {
    /// One evaluation of the scheduler: reports whether mining is due now,
    /// and remembers the window when it is.
    pub fn tick(&mut self, elapsed: u64) -> (fired: bool)
        requires
            old(self).wf(),
        ensures
            fired == fire_cond(*old(self), elapsed),
            *final(self) == sched_step(*old(self), elapsed),
            final(self).wf(),
            final(self).interval == old(self).interval,
    {
        let due = elapsed % self.interval == 0 && match self.last_fired_window {
            None => true,
            Some(w) => w < elapsed / self.interval,
        };
        if due {
            self.last_fired_window = Some(elapsed / self.interval);
            true
        } else {
            false
        }
    }
}

/// Running a scheduler keeps it well formed, keeps its interval, and its
/// recorded window is an upper bound of every window it fired in along the
/// way: the window only ever moves forward.
pub proof fn lemma_run_window_bound(s: MiningScheduler, es: Seq<u64>)
    requires
        s.wf(),
    ensures
        sched_run(s, es).wf(),
        sched_run(s, es).interval == s.interval,
        forall|w: u64|
            s.last_fired_window == Some(w) ==> (sched_run(s, es).last_fired_window matches Some(v)
                && v >= w),
        forall|i: int|
            0 <= i < es.len() && fires_at(s, es, i) ==> (sched_run(
                s,
                es,
            ).last_fired_window matches Some(v)
                && v >= es[i] / s.interval),
    decreases es.len(),
{
    if es.len() == 0 {
    } else {
        let s1 = sched_step(s, es[0]);
        let rest = es.drop_first();
        lemma_run_window_bound(s1, rest);
        assert forall|i: int| 0 <= i < es.len() && fires_at(s, es, i) implies (sched_run(
            s,
            es,
        ).last_fired_window matches Some(v)
            && v >= es[i] / s.interval) by {
            if i == 0 {
                assert(es.take(0).len() == 0);
                assert(s1.last_fired_window == Some(es[0] / s.interval));
            } else {
                assert(es.take(i).drop_first() =~= rest.take(i - 1));
                assert(sched_run(s, es.take(i)) == sched_run(s1, rest.take(i - 1)));
                assert(fires_at(s1, rest, i - 1));
            }
        }
    }
}

/// Mining fires at most once per block window: any two ticks that both
/// fire lie in distinct windows, the later tick in a strictly later window.
/// This holds of every tick sequence, however many iterations fall into one
/// window and however the clock moves.
pub proof fn lemma_mine_once_per_window(s: MiningScheduler, es: Seq<u64>, i: int, j: int)
    requires
        s.wf(),
        0 <= i < j < es.len(),
        fires_at(s, es, i),
        fires_at(s, es, j),
    ensures
        es[i] / s.interval < es[j] / s.interval,
{
    let sj = sched_run(s, es.take(j));
    assert(es.take(j).take(i) =~= es.take(i));
    assert(fires_at(s, es.take(j), i));
    lemma_run_window_bound(s, es.take(j));
    assert(sj.last_fired_window matches Some(v) && v >= es[i] / s.interval);
}

} // verus!
