//! The macro state machine: start, loop and end sequences played in turn.
use vstd::prelude::*;
use crate::profile::{Action, ActionEvent, Channel, KeyId, LayerId, Macro, MacroId};
use crate::sequence::{
    SequenceState, drain_acc, drain_count, events_of, ready, sat_add, total_ms,
};
use crate::time::Duration;

verus! {

/// Which sequence of its macro an instance is playing.
#[derive(Debug, Clone, Copy, PartialEq, Eq, Structural)]
pub enum CurrentSequence {
    Start,
    Loop,
    End,
    Finished,
}

/// Whether the trigger of an instance is still held.
#[derive(Debug, Clone, Copy, PartialEq, Eq, Structural)]
pub enum TriggerState {
    Running,
    Stopping,
}

/// The key that started an instance.
#[derive(Debug, Clone, Copy, PartialEq, Eq, Structural)]
pub enum MacroSourceKey {
    PhysicalKey(KeyId),
    VirtualKey(usize),
}

/// The key that started an instance, and the layer that key had then.
#[derive(Debug, Clone, Copy, PartialEq, Eq, Structural)]
pub struct MacroSource {
    pub key: MacroSourceKey,
    pub layer: LayerId,
}

/// What the engine reads of a macro.
pub struct MacroDef {
    pub id: MacroId,
    pub play_channel: Option<Channel>,
    pub cut_channels: Seq<Channel>,
    pub start: Seq<Action>,
    pub looped: Seq<Action>,
    pub end: Seq<Action>,
}

/// The state of a running macro instance.
pub struct MacroView {
    pub def: MacroDef,
    pub current: CurrentSequence,
    pub trigger: TriggerState,
    pub source: MacroSource,
    pub pending: Seq<Action>,
    pub acc: u64,
}

pub open spec fn macro_def(m: Macro) -> MacroDef {
    MacroDef {
        id: m.id,
        play_channel: m.play_channel,
        cut_channels: m.cut_channels@,
        start: m.start_sequence.actions@,
        looped: m.loop_sequence.actions@,
        end: m.end_sequence.actions@,
    }
}

/// The actions of the sequence `c` of `d`.
pub open spec fn segment(d: MacroDef, c: CurrentSequence) -> Seq<Action> {
    match c {
        CurrentSequence::Start => d.start,
        CurrentSequence::Loop => d.looped,
        CurrentSequence::End => d.end,
        CurrentSequence::Finished => Seq::empty(),
    }
}

/// The sequence that follows `c` once it has played out.
pub open spec fn next_segment(c: CurrentSequence, t: TriggerState) -> CurrentSequence {
    match c {
        CurrentSequence::Start | CurrentSequence::Loop => match t {
            TriggerState::Running => CurrentSequence::Loop,
            TriggerState::Stopping => CurrentSequence::End,
        },
        _ => CurrentSequence::Finished,
    }
}

/// A new instance of `d`, started from `source`.
pub open spec fn initial_view(d: MacroDef, source: MacroSource) -> MacroView {
    MacroView {
        def: d,
        current: CurrentSequence::Start,
        trigger: TriggerState::Running,
        source,
        pending: d.start,
        acc: 0,
    }
}

/// One round of a tick: `feed` more microseconds go to the current sequence. If it plays out,
/// the next sequence starts with what is left. The flag says whether the round goes on: only
/// with time left, not once finished, and not into a loop whose predelays add up to zero.
pub open spec fn step(v: MacroView, feed: u64) -> (MacroView, Seq<ActionEvent>, bool) {
    let acc0 = sat_add(v.acc, feed) as int;
    let n = drain_count(v.pending, acc0) as int;
    let acc1 = drain_acc(v.pending, acc0);
    let evs = events_of(v.pending.take(n));
    if n < v.pending.len() {
        (MacroView { pending: v.pending.skip(n), acc: acc1 as u64, ..v }, evs, false)
    } else {
        let c = next_segment(v.current, v.trigger);
        (
            MacroView { current: c, pending: segment(v.def, c), acc: acc1 as u64, ..v },
            evs,
            acc1 > 0 && c != CurrentSequence::Finished && !(c == CurrentSequence::Loop
                && total_ms(v.def.looped) == 0),
        )
    }
}

/// Up to `fuel` rounds from `v`, the first fed `feed`, the others nothing; the state reached,
/// the events played, and whether it would go on.
pub open spec fn run(v: MacroView, feed: u64, go: bool, fuel: nat) -> (
    MacroView,
    Seq<ActionEvent>,
    bool,
)
    decreases fuel,
{
    if !go {
        (v, Seq::empty(), false)
    } else if fuel == 0 {
        (v, Seq::empty(), true)
    } else {
        let s = step(v, feed);
        let r = run(s.0, 0, s.2, (fuel - 1) as nat);
        (r.0, s.1 + r.1, r.2)
    }
}

/// Whether a tick of `elapsed` microseconds on `v` does anything.
pub open spec fn starts(v: MacroView, elapsed: u64) -> bool {
    elapsed > 0 && v.current != CurrentSequence::Finished
}

/// A tick of `elapsed` microseconds on `v` ends in state `w` having played `evs`.
pub open spec fn ticks_to(v: MacroView, elapsed: u64, w: MacroView, evs: Seq<ActionEvent>) -> bool {
    exists|f: nat|
        #[trigger] run(v, elapsed, starts(v, elapsed), f) == (
            w,
            evs,
            false,
        )
}

/// While looping, time is always spent before the loop starts over, unless the loop
/// sequence spends none at all.
pub open spec fn loop_spends_time(v: MacroView) -> bool {
    v.current == CurrentSequence::Loop ==> (total_ms(v.def.looped) == 0 || total_ms(v.pending)
        > 0)
}

pub open spec fn rank(c: CurrentSequence) -> int {
    match c {
        CurrentSequence::Start => 3,
        CurrentSequence::Loop => 2,
        CurrentSequence::End => 1,
        CurrentSequence::Finished => 0,
    }
}

proof fn lemma_total_nonneg(p: Seq<Action>)
    ensures
        total_ms(p) >= 0,
        p.len() > 0 ==> total_ms(p) >= p[0].predelay_ms,
    decreases p.len(),
{
    if p.len() > 0 {
        lemma_total_nonneg(p.drop_first());
    }
}

proof fn lemma_drain(p: Seq<Action>, acc: int)
    requires
        acc >= 0,
    ensures
        drain_count(p, acc) <= p.len(),
        0 <= drain_acc(p, acc) <= acc,
        drain_count(p, acc) == p.len() ==> drain_acc(p, acc) == acc - total_ms(p) * 1000,
        drain_count(p, acc) < p.len() ==> !ready(
            p[drain_count(p, acc) as int],
            drain_acc(p, acc),
        ),
        drain_count(p, acc) < p.len() ==> p.skip(drain_count(p, acc) as int)[0]
            == p[drain_count(p, acc) as int],
    decreases p.len(),
{
    if p.len() > 0 && ready(p[0], acc) {
        let d = p[0].predelay_ms as int;
        assert(d * 1000 <= acc) by (nonlinear_arith)
            requires
                d <= acc / 1000,
                acc >= 0,
        ;
        lemma_drain(p.drop_first(), acc - d * 1000);
    }
}

proof fn lemma_run_unfold(v: MacroView, feed: u64, fuel: nat)
    ensures
        run(v, feed, true, fuel + 1) == ({
            let s = step(v, feed);
            let r = run(s.0, 0, s.2, fuel);
            (r.0, s.1 + r.1, r.2)
        }),
{
}

/// Whether every action of `actions` has a zero predelay.
fn spends_no_time(actions: &Vec<Action>) -> (r: bool)
    ensures
        r == (total_ms(actions@) == 0),
{
    let mut i: usize = 0;
    proof {
        assert(actions@.skip(0) =~= actions@);
    }
    while i < actions.len()
        invariant
            i <= actions@.len(),
            total_ms(actions@) == total_ms(actions@.skip(i as int)),
        decreases actions.len() - i,
    {
        proof {
            let q = actions@.skip(i as int);
            assert(q.drop_first() =~= actions@.skip(i + 1));
            lemma_total_nonneg(q.drop_first());
        }
        if actions[i].predelay_ms != 0 {
            return false;
        }
        i = i + 1;
    }
    proof {
        assert(actions@.skip(i as int) =~= Seq::<Action>::empty());
    }
    true
}

/// One running instance of a macro.
pub struct MacroState {
    macro_: Macro,
    current_sequence: CurrentSequence,
    player: SequenceState,
    trigger: TriggerState,
    source: MacroSource,
}

impl View for MacroState {
    type V = MacroView;

    closed spec fn view(&self) -> MacroView {
        MacroView {
            def: macro_def(self.macro_),
            current: self.current_sequence,
            trigger: self.trigger,
            source: self.source,
            pending: self.player.pending(),
            acc: self.player.acc(),
        }
    }
}

impl MacroState {
    pub closed spec fn wf(&self) -> bool {
        self.player.wf() && loop_spends_time(self@)
    }

    /// A new instance of `macro_`, started by `source`: it plays the start sequence, with its
    /// trigger held.
    pub fn from(macro_: &Macro, source: MacroSource) -> (r: MacroState)
        ensures
            r.wf(),
            r@ == initial_view(macro_def(*macro_), source),
    {
        let m = macro_.duplicate();
        let player = SequenceState::from(&m.start_sequence, Duration::from_micros(0));
        MacroState {
            macro_: m,
            current_sequence: CurrentSequence::Start,
            player,
            trigger: TriggerState::Running,
            source,
        }
    }

    /// Lets `elapsed` pass: the current sequence plays what is due; each sequence that plays
    /// out hands what is left of the time to the next one, per the transition table.
    pub fn tick(&mut self, elapsed: Duration, events: &mut Vec<ActionEvent>)
        requires
            old(self).wf(),
        ensures
            final(self).wf(),
            ticks_to(
                old(self)@,
                elapsed.micros,
                final(self)@,
                final(events)@.skip(old(events)@.len() as int),
            ),
            final(events)@.len() >= old(events)@.len(),
            final(events)@.take(old(events)@.len() as int) == old(events)@,
    {
        let ghost v0 = self@;
        let ghost e0 = events@;
        proof {
            assert(events@.skip(e0.len() as int) =~= Seq::<ActionEvent>::empty());
            assert(events@.take(e0.len() as int) =~= e0);
        }
        if elapsed.micros == 0 || self.is_finished() {
            proof {
                assert(!starts(v0, elapsed.micros));
                assert(run(v0, elapsed.micros, starts(v0, elapsed.micros), 0) == (
                    self@,
                    events@.skip(e0.len() as int),
                    false,
                ));
            }
            return;
        }
        let mut feed: u64 = elapsed.micros;
        let ghost mut k: nat = 0;
        loop
            invariant_except_break
                k == 0 ==> feed == elapsed.micros && self@ == v0,
                k > 0 ==> feed == 0,
                forall|f: nat|
                    f >= k ==> #[trigger] run(v0, elapsed.micros, true, f) == ({
                        let r = run(self@, feed, true, (f - k) as nat);
                        (r.0, events@.skip(e0.len() as int) + r.1, r.2)
                    }),
            invariant
                self.wf(),
                self@.def == v0.def,
                self@.source == v0.source,
                v0 == old(self)@,
                e0 == old(events)@,
                elapsed.micros > 0,
                v0.current != CurrentSequence::Finished,
                events@.len() >= e0.len(),
                events@.take(e0.len() as int) == e0,
            ensures
                self.wf(),
                ticks_to(v0, elapsed.micros, self@, events@.skip(e0.len() as int)),
                events@.take(e0.len() as int) == e0,
            decreases self@.acc + feed, rank(self@.current),
        {
            let ghost cur = self@;
            let ghost ev_before = events@;
            let ghost produced = events@.skip(e0.len() as int);
            let ghost s = step(cur, feed);
            proof {
                lemma_drain(cur.pending, sat_add(cur.acc, feed) as int);
            }
            let left = self.player.tick(Duration::from_micros(feed), events);
            feed = 0;
            proof {
                assert(events@.skip(e0.len() as int) =~= produced + s.1);
                assert(events@.take(e0.len() as int) =~= e0);
                assert forall|f: nat| f >= k + 1 implies #[trigger] run(
                    v0,
                    elapsed.micros,
                    true,
                    f,
                ) == ({
                    let r = run(s.0, 0, s.2, (f - (k + 1)) as nat);
                    (r.0, events@.skip(e0.len() as int) + r.1, r.2)
                }) by {
                    lemma_run_unfold(cur, if k == 0 { elapsed.micros } else { 0 }, (f - (k + 1)) as nat);
                    assert((f - k) as nat == (f - (k + 1)) as nat + 1);
                    let r = run(s.0, 0, s.2, (f - (k + 1)) as nat);
                    assert(produced + (s.1 + r.1) =~= (produced + s.1) + r.1);
                }
            }
            if !self.player.is_finished() {
                proof {
                    let p = cur.pending;
                    let a0 = sat_add(cur.acc, if k == 0 { elapsed.micros } else { 0 }) as int;
                    let n = drain_count(p, a0) as int;
                    lemma_total_nonneg(p.skip(n));
                    assert(self@ == s.0);
                    assert(run(s.0, 0, false, 0) == (s.0, Seq::<ActionEvent>::empty(), false));
                    assert(events@.skip(e0.len() as int) + Seq::<ActionEvent>::empty()
                        =~= events@.skip(e0.len() as int));
                    assert(run(v0, elapsed.micros, true, k + 1) == (
                        self@,
                        events@.skip(e0.len() as int),
                        false,
                    ));
                    assert(starts(v0, elapsed.micros));
                    assert(run(v0, elapsed.micros, starts(v0, elapsed.micros), k + 1) == (
                        self@,
                        events@.skip(e0.len() as int),
                        false,
                    ));
                }
                break;
            }
            self.move_to_next_seq(left);
            proof {
                let p = cur.pending;
                let a0 = sat_add(cur.acc, if k == 0 { elapsed.micros } else { 0 }) as int;
                lemma_total_nonneg(self@.def.looped);
                lemma_total_nonneg(p);
                assert(self@ == s.0);
            }
            if left.micros == 0 || self.current_sequence == CurrentSequence::Finished || (
            self.current_sequence == CurrentSequence::Loop && spends_no_time(
                &self.macro_.loop_sequence.actions,
            )) {
                proof {
                    assert(!s.2);
                    assert(run(s.0, 0, false, 0) == (s.0, Seq::<ActionEvent>::empty(), false));
                    assert(events@.skip(e0.len() as int) + Seq::<ActionEvent>::empty()
                        =~= events@.skip(e0.len() as int));
                    assert(run(v0, elapsed.micros, true, k + 1) == (
                        self@,
                        events@.skip(e0.len() as int),
                        false,
                    ));
                    assert(starts(v0, elapsed.micros));
                    assert(run(v0, elapsed.micros, starts(v0, elapsed.micros), k + 1) == (
                        self@,
                        events@.skip(e0.len() as int),
                        false,
                    ));
                }
                break;
            }
            proof {
                assert(s.2);
                k = k + 1;
            }
        }
    }

    fn move_to_next_seq(&mut self, elapsed: Duration)
        requires
            old(self).player.wf(),
            old(self)@.pending.len() == 0,
        ensures
            final(self).wf(),
            final(self)@ == (MacroView {
                current: next_segment(old(self)@.current, old(self)@.trigger),
                pending: segment(
                    old(self)@.def,
                    next_segment(old(self)@.current, old(self)@.trigger),
                ),
                acc: elapsed.micros,
                ..old(self)@
            }),
    {
        proof {
            lemma_total_nonneg(self@.def.looped);
        }
        match self.current_sequence {
            CurrentSequence::Start | CurrentSequence::Loop => match self.trigger {
                TriggerState::Running => {
                    self.current_sequence = CurrentSequence::Loop;
                    self.player = SequenceState::from(&self.macro_.loop_sequence, elapsed);
                },
                TriggerState::Stopping => {
                    self.current_sequence = CurrentSequence::End;
                    self.player = SequenceState::from(&self.macro_.end_sequence, elapsed);
                },
            },
            _ => {
                self.current_sequence = CurrentSequence::Finished;
                self.player = SequenceState::over(Vec::new(), elapsed.micros);
                proof {
                    assert(self.player.pending() =~= Seq::<Action>::empty());
                }
            },
        }
    }

    /// Marks the trigger as released: the instance goes to its end sequence once its current
    /// sequence has played out.
    pub fn stop(&mut self)
        requires
            old(self).wf(),
        ensures
            final(self).wf(),
            final(self)@ == (MacroView { trigger: TriggerState::Stopping, ..old(self)@ }),
    {
        self.trigger = TriggerState::Stopping;
    }

    pub fn is_finished(&self) -> (r: bool)
        ensures
            r == (self@.current == CurrentSequence::Finished),
    {
        self.current_sequence == CurrentSequence::Finished
    }

    pub fn current_sequence(&self) -> (r: CurrentSequence)
        ensures
            r == self@.current,
    {
        self.current_sequence
    }

    pub fn trigger(&self) -> (r: TriggerState)
        ensures
            r == self@.trigger,
    {
        self.trigger
    }

    pub fn source(&self) -> (r: MacroSource)
        ensures
            r == self@.source,
    {
        self.source
    }

    pub fn macro_id(&self) -> (r: MacroId)
        ensures
            r == self@.def.id,
    {
        self.macro_.id
    }

    pub fn play_channel(&self) -> (r: Option<Channel>)
        ensures
            r == self@.def.play_channel,
    {
        self.macro_.play_channel
    }

    pub fn cut_channels(&self) -> (r: &Vec<Channel>)
        ensures
            r@ == self@.def.cut_channels,
    {
        &self.macro_.cut_channels
    }
}

} // verus!
