//! The sequence player: turns elapsed time into the actions of one sequence, in order.
use vstd::prelude::*;
use crate::profile::{Action, ActionEvent, Sequence, duplicate_actions};
use crate::time::Duration;

verus! {

/// `a + b`, held at `u64::MAX`.
pub open spec fn sat_add(a: u64, b: u64) -> u64 {
    if a + b > u64::MAX {
        u64::MAX
    } else {
        (a + b) as u64
    }
}

/// Whether action `a` is due once `acc` microseconds have accumulated.
pub open spec fn ready(a: Action, acc: int) -> bool {
    a.predelay_ms as int <= acc / 1000
}

/// How many leading actions of `p` play with `acc` microseconds accumulated: each one
/// that is due plays and spends its predelay; the first that is not due stops the run.
pub open spec fn drain_count(p: Seq<Action>, acc: int) -> nat
    decreases p.len(),
{
    if p.len() > 0 && ready(p[0], acc) {
        1 + drain_count(p.drop_first(), acc - p[0].predelay_ms * 1000)
    } else {
        0
    }
}

/// What is left of `acc` after the run of `drain_count`.
pub open spec fn drain_acc(p: Seq<Action>, acc: int) -> int
    decreases p.len(),
{
    if p.len() > 0 && ready(p[0], acc) {
        drain_acc(p.drop_first(), acc - p[0].predelay_ms * 1000)
    } else {
        acc
    }
}

/// The events of a list of actions.
pub open spec fn events_of(p: Seq<Action>) -> Seq<ActionEvent> {
    p.map_values(|a: Action| a.action_event)
}

/// The sum of the predelays of `p`, in milliseconds.
pub open spec fn total_ms(p: Seq<Action>) -> int
    decreases p.len(),
{
    if p.len() == 0 {
        0
    } else {
        p[0].predelay_ms + total_ms(p.drop_first())
    }
}

/// A sequence with no actions has nothing pending from the start, and a tick of any length
/// leaves it so.
pub proof fn lemma_empty_sequence_is_finished(actions: Seq<Action>, acc: u64, elapsed: u64)
    requires
        actions.len() == 0,
    ensures
        drain_count(actions, sat_add(acc, elapsed) as int) == 0,
        actions.skip(drain_count(actions, sat_add(acc, elapsed) as int) as int).len() == 0,
        events_of(actions.take(0)).len() == 0,
{
}

/// The state of one sequence being played: the actions still pending, in order, and the
/// time accumulated toward the next one.
pub struct SequenceState {
    actions: Vec<Action>,
    next: usize,
    elapsed: u64,
}

impl SequenceState {
    pub closed spec fn wf(&self) -> bool {
        self.next <= self.actions@.len()
    }

    /// The actions not yet played, in order.
    pub closed spec fn pending(&self) -> Seq<Action> {
        self.actions@.skip(self.next as int)
    }

    /// The accumulated time, in microseconds.
    pub closed spec fn acc(&self) -> u64 {
        self.elapsed
    }

    /// A player over `sequence` that starts with `elapsed` already accumulated.
    pub fn from(sequence: &Sequence, elapsed: Duration) -> (r: SequenceState)
        ensures
            r.wf(),
            r.pending() == sequence.actions@,
            r.acc() == elapsed.micros,
    {
        SequenceState::over(duplicate_actions(&sequence.actions), elapsed.micros)
    }

    /// A player over `actions` that starts with `elapsed` microseconds accumulated.
    pub fn over(actions: Vec<Action>, elapsed: u64) -> (r: SequenceState)
        ensures
            r.wf(),
            r.pending() == actions@,
            r.acc() == elapsed,
    {
        let r = SequenceState { actions, next: 0, elapsed };
        proof {
            assert(r.actions@.skip(0) =~= r.actions@);
        }
        r
    }

    /// Adds `elapsed` to the accumulated time (held at `u64::MAX`), then plays every pending
    /// action that is due, in order, pushing its event onto `events` and spending its predelay.
    /// Returns what is left of the accumulated time if no action is pending any more, else zero.
    pub fn tick(&mut self, elapsed: Duration, events: &mut Vec<ActionEvent>) -> (r: Duration)
        requires
            old(self).wf(),
        ensures
            final(self).wf(),
            ({
                let acc0 = sat_add(old(self).acc(), elapsed.micros) as int;
                let n = drain_count(old(self).pending(), acc0) as int;
                &&& final(self).pending() == old(self).pending().skip(n)
                &&& final(self).acc() == drain_acc(old(self).pending(), acc0)
                &&& final(events)@ == old(events)@ + events_of(old(self).pending().take(n))
            }),
            r.micros == if final(self).pending().len() == 0 {
                final(self).acc()
            } else {
                0
            },
    {
        let ghost p0 = self.pending();
        let ghost e0 = events@;
        self.elapsed = self.elapsed.saturating_add(elapsed.micros);
        let ghost acc0 = self.elapsed as int;
        let ghost next0 = self.next as int;
        while self.next < self.actions.len()
            invariant
                self.wf(),
                self.actions@ == old(self).actions@,
                next0 == old(self).next,
                next0 <= self.next,
                p0 == old(self).pending(),
                acc0 == sat_add(old(self).acc(), elapsed.micros),
                self.pending() == p0.skip(self.next - next0),
                drain_count(p0, acc0) == (self.next - next0) + drain_count(
                    self.pending(),
                    self.elapsed as int,
                ),
                drain_acc(p0, acc0) == drain_acc(self.pending(), self.elapsed as int),
                events@ == e0 + events_of(p0.take(self.next - next0)),
                e0 == old(events)@,
            decreases self.actions.len() - self.next,
        {
            let ghost cur = self.pending();
            let delay = self.actions[self.next].predelay_ms;
            if delay <= self.elapsed / 1000 {
                events.push(self.actions[self.next].action_event.duplicate());
                proof {
                    let e = self.elapsed as int;
                    assert(delay * 1000 <= e) by (nonlinear_arith)
                        requires
                            delay <= e / 1000,
                            e >= 0,
                    ;
                    assert(cur[0] == self.actions@[self.next as int]);
                    assert(cur.drop_first() =~= p0.skip(self.next - next0 + 1));
                    assert(p0.take(self.next - next0 + 1) =~= p0.take(self.next - next0).push(
                        cur[0],
                    ));
                    assert(events_of(p0.take(self.next - next0 + 1)) =~= events_of(
                        p0.take(self.next - next0),
                    ).push(cur[0].action_event));
                }
                self.elapsed = self.elapsed - delay * 1000;
                self.next = self.next + 1;
                proof {
                    assert(self.pending() =~= cur.drop_first());
                }
            } else {
                proof {
                    assert(cur[0] == self.actions@[self.next as int]);
                }
                return Duration { micros: 0 };
            }
        }
        proof {
            assert(self.pending() =~= Seq::<Action>::empty());
        }
        Duration { micros: self.elapsed }
    }

    /// Whether no action is pending.
    pub fn is_finished(&self) -> (r: bool)
        requires
            self.wf(),
        ensures
            r == (self.pending().len() == 0),
    {
        self.next >= self.actions.len()
    }

    /// The number of actions not yet played.
    pub fn pending_len(&self) -> (r: usize)
        requires
            self.wf(),
        ensures
            r == self.pending().len(),
    {
        self.actions.len() - self.next
    }

    /// The accumulated time.
    pub fn elapsed(&self) -> (r: Duration)
        ensures
            r.micros == self.acc(),
    {
        Duration { micros: self.elapsed }
    }
}

} // verus!
