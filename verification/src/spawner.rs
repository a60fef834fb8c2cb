//! A reusable "every so often, produce one of several weighted things"
//! engine. It decides only *when* and *which kind*; what to do with the
//! kind it hands out is up to the caller.
use crate::random::{random_below, random_in};
use crate::timer::{ticked, OnceTimer, TimerState};
use std::ops::RangeInclusive;
use vstd::prelude::*;

verus! {

/// One entry in a [`Spawner`]'s registry: what can be spawned, how likely
/// it is relative to the other entries, and what color to render it with.
pub struct SpawnDef<T, C> {
    pub kind: T,
    pub weight: u32,
    pub color: C,
}

/// What a [`Spawner`] produces when its timer fires.
pub struct SpawnResult<T, C> {
    pub kind: T,
    pub color: C,
}

/// The sum of the weights of `defs`.
pub open spec fn weight_sum<T, C>(defs: Seq<SpawnDef<T, C>>) -> nat
    decreases defs.len(),
{
    if defs.len() == 0 {
        0
    } else {
        weight_sum(defs.drop_last()) + defs.last().weight as nat
    }
}

/// Entry `i` owns the stretch of rolls from the weight of the entries
/// before it up to that weight plus its own: `roll` falls in entry `i`'s
/// stretch.
pub open spec fn picks<T, C>(defs: Seq<SpawnDef<T, C>>, roll: nat, i: int) -> bool {
    &&& 0 <= i < defs.len()
    &&& weight_sum(defs.take(i)) <= roll
    &&& roll < weight_sum(defs.take(i + 1))
}

/// The weight of the first `i + 1` entries is that of the first `i` plus
/// entry `i`'s.
pub proof fn lemma_weight_sum_step<T, C>(defs: Seq<SpawnDef<T, C>>, i: int)
    requires
        0 <= i < defs.len(),
    ensures
        weight_sum(defs.take(i + 1)) == weight_sum(defs.take(i)) + defs[i].weight,
{
    assert(defs.take(i + 1).drop_last() =~= defs.take(i));
}

/// Taking more entries never lowers the weight.
pub proof fn lemma_weight_sum_monotone<T, C>(defs: Seq<SpawnDef<T, C>>, i: int, j: int)
    requires
        0 <= i <= j <= defs.len(),
    ensures
        weight_sum(defs.take(i)) <= weight_sum(defs.take(j)),
    decreases j - i,
{
    if i < j {
        lemma_weight_sum_monotone(defs, i, j - 1);
        lemma_weight_sum_step(defs, j - 1);
    }
}

/// Every roll below the total weight falls in the stretch of exactly one
/// entry, and that entry has a positive weight.
pub proof fn lemma_picks_unique<T, C>(defs: Seq<SpawnDef<T, C>>, roll: nat, i: int, j: int)
    requires
        picks(defs, roll, i),
        picks(defs, roll, j),
    ensures
        i == j,
        defs[i].weight > 0,
{
    lemma_weight_sum_step(defs, i);
    if i < j {
        lemma_weight_sum_monotone(defs, i + 1, j);
    } else if j < i {
        lemma_weight_sum_monotone(defs, j + 1, i);
    }
}

/// The entry whose stretch holds `roll`, where `roll` is below the total
/// weight; past the total (which a caller drawing below the total never
/// hands in) the last entry, or none when there are no entries.
pub fn choose_weighted_at<T, C>(defs: &[SpawnDef<T, C>], roll: u64) -> (r: Option<&SpawnDef<T, C>>)
    ensures
        roll < weight_sum(defs@) ==> exists|i: int|
            picks(defs@, roll as nat, i) && r == Some(&defs@[i]),
        roll >= weight_sum(defs@) ==> r == (if defs@.len() == 0 {
            None
        } else {
            Some(&defs@.last())
        }),
{
    let mut rest: u64 = roll;
    let mut i: usize = 0;
    while i < defs.len()
        invariant
            i <= defs.len(),
            rest + weight_sum(defs@.take(i as int)) == roll,
        decreases defs.len() - i,
    {
        proof {
            lemma_weight_sum_step(defs@, i as int);
        }
        let w: u64 = defs[i].weight as u64;
        if rest < w {
            proof {
                lemma_weight_sum_monotone(defs@, i as int + 1, defs@.len() as int);
                assert(defs@.take(defs@.len() as int) =~= defs@);
                assert(picks(defs@, roll as nat, i as int));
            }
            return Some(&defs[i]);
        }
        rest = rest - w;
        i = i + 1;
    }
    assert(defs@.take(defs@.len() as int) =~= defs@);
    defs.last()
}

/// The total weight of `defs`.
fn total_weight<T, C>(defs: &[SpawnDef<T, C>]) -> (total: u64)
    requires
        weight_sum(defs@) <= u64::MAX,
    ensures
        total == weight_sum(defs@),
{
    let mut total: u64 = 0;
    let mut i: usize = 0;
    while i < defs.len()
        invariant
            i <= defs.len(),
            total == weight_sum(defs@.take(i as int)),
            weight_sum(defs@) <= u64::MAX,
        decreases defs.len() - i,
    {
        proof {
            lemma_weight_sum_step(defs@, i as int);
            lemma_weight_sum_monotone(defs@, i as int + 1, defs@.len() as int);
            assert(defs@.take(defs@.len() as int) =~= defs@);
        }
        total = total + defs[i].weight as u64;
        i = i + 1;
    }
    assert(defs@.take(defs@.len() as int) =~= defs@);
    total
}

/// Picks one entry at random, each with a chance proportional to its
/// weight: `None` exactly when the weights add up to zero (no entries, or
/// only weightless ones), and otherwise an entry of positive weight. The
/// roll is drawn below the total weight and handed to
/// [`choose_weighted_at`].
pub fn choose_weighted<T, C>(defs: &[SpawnDef<T, C>]) -> (r: Option<&SpawnDef<T, C>>)
    requires
        weight_sum(defs@) <= u64::MAX,
    ensures
        r is None <==> weight_sum(defs@) == 0,
        r matches Some(d) ==> exists|i: int|
            0 <= i < defs@.len() && defs@[i].weight > 0 && *d == defs@[i],
{
    let total = total_weight(defs);
    if total == 0 {
        return None;
    }
    let roll = random_below(total);
    let r = choose_weighted_at(defs, roll);
    proof {
        let i = choose|i: int| picks(defs@, roll as nat, i) && r == Some(&defs@[i]);
        lemma_picks_unique(defs@, roll as nat, i, i);
    }
    r
}

/// A timer that fires after a random wait drawn from `interval` (in
/// nanoseconds), a registry of weighted entries, and a count of how many
/// times the timer has fired.
pub struct Spawner<T: Copy, C: Copy> {
    interval: RangeInclusive<u64>,
    timer: OnceTimer,
    defs: Vec<SpawnDef<T, C>>,
    dispensed: u32,
}

impl<T: Copy, C: Copy> Spawner<T, C> {
    /// The shortest wait, in nanoseconds.
    pub closed spec fn min_wait(&self) -> nat {
        self.interval@.start as nat
    }

    /// The longest wait, in nanoseconds.
    pub closed spec fn max_wait(&self) -> nat {
        self.interval@.end as nat
    }

    /// The timer counting down to the next firing.
    pub closed spec fn timer_state(&self) -> TimerState {
        self.timer@
    }

    /// The registered entries, in the order they were registered.
    pub closed spec fn registry(&self) -> Seq<SpawnDef<T, C>> {
        self.defs@
    }

    /// How many times the timer has fired since the spawner was made or
    /// last reset.
    pub closed spec fn fired(&self) -> nat {
        self.dispensed as nat
    }

    /// The wait range is not empty, the running timer has not fired and
    /// was drawn from that range, and the registry's weights fit a `u64`.
    pub open spec fn wf(&self) -> bool {
        &&& self.min_wait() <= self.max_wait()
        &&& self.timer_state().wf()
        &&& !self.timer_state().finished
        &&& self.min_wait() <= self.timer_state().duration <= self.max_wait()
        &&& weight_sum(self.registry()) <= u64::MAX
    }

    /// Every spawner is well formed.
    #[verifier::type_invariant]
    spec fn inv(&self) -> bool {
        self.wf()
    }

    /// A fresh timer whose length lies in the wait range.
    pub open spec fn timer_restarted(&self) -> bool {
        &&& self.timer_state().elapsed == 0
        &&& !self.timer_state().finished
        &&& self.min_wait() <= self.timer_state().duration <= self.max_wait()
    }

    /// A spawner with an empty registry whose first wait is drawn from
    /// `interval`, in nanoseconds.
    pub fn new(interval: RangeInclusive<u64>) -> (s: Self)
        requires
            interval@.start <= interval@.end,
        ensures
            s.wf(),
            s.min_wait() == interval@.start,
            s.max_wait() == interval@.end,
            s.timer_restarted(),
            s.registry() == Seq::<SpawnDef<T, C>>::empty(),
            s.fired() == 0,
    {
        let wait = random_in(&interval);
        Spawner { interval, timer: OnceTimer::new(wait), defs: Vec::new(), dispensed: 0 }
    }

    /// Adds an entry to the registry. Each kind's own setup calls this once,
    /// so the spawner needs no central list of every kind there is.
    pub fn register(&mut self, kind: T, weight: u32, color: C)
        requires
            weight_sum(old(self).registry()) + weight <= u64::MAX,
        ensures
            final(self).wf(),
            final(self).registry() == old(self).registry().push(
                SpawnDef { kind, weight, color },
            ),
            final(self).timer_state() == old(self).timer_state(),
            final(self).fired() == old(self).fired(),
            final(self).min_wait() == old(self).min_wait(),
            final(self).max_wait() == old(self).max_wait(),
    {
        proof {
            use_type_invariant(&*self);
        }
        let mut defs: Vec<SpawnDef<T, C>> = Vec::new();
        std::mem::swap(&mut defs, &mut self.defs);
        defs.push(SpawnDef { kind, weight, color });
        proof {
            assert(defs@.drop_last() =~= old(self).defs@);
        }
        self.defs = defs;
    }

    /// How many times the timer has fired.
    pub fn dispensed(&self) -> (n: u32)
        ensures
            n == self.fired(),
    {
        self.dispensed
    }

    /// Draws a new wait and zeroes the fired count; the registry stays, as
    /// entries are only ever added once, at setup.
    pub fn reset(&mut self)
        ensures
            final(self).wf(),
            final(self).timer_restarted(),
            final(self).fired() == 0,
            final(self).registry() == old(self).registry(),
            final(self).min_wait() == old(self).min_wait(),
            final(self).max_wait() == old(self).max_wait(),
    {
        proof {
            use_type_invariant(&*self);
        }
        let wait = random_in(&self.interval);
        self.timer = OnceTimer::new(wait);
        self.dispensed = 0;
    }

    /// Ticks the timer by `dt_ns` nanoseconds. If that runs it out, draws
    /// the next wait, counts one more firing and hands out a weighted
    /// random entry's kind and color (none when the registry's weights add
    /// up to zero); otherwise hands out nothing.
    pub fn tick(&mut self, dt_ns: u64) -> (r: Option<SpawnResult<T, C>>)
        requires
            ticked(old(self).timer_state(), dt_ns as nat).finished ==> old(self).fired()
                < u32::MAX,
        ensures
            final(self).wf(),
            final(self).registry() == old(self).registry(),
            final(self).min_wait() == old(self).min_wait(),
            final(self).max_wait() == old(self).max_wait(),
            !ticked(old(self).timer_state(), dt_ns as nat).finished ==> {
                &&& final(self).timer_state() == ticked(old(self).timer_state(), dt_ns as nat)
                &&& final(self).fired() == old(self).fired()
                &&& r is None
            },
            ticked(old(self).timer_state(), dt_ns as nat).finished ==> {
                &&& final(self).timer_restarted()
                &&& final(self).fired() == old(self).fired() + 1
                &&& (r is None <==> weight_sum(old(self).registry()) == 0)
                &&& (r matches Some(res) ==> exists|i: int|
                    0 <= i < old(self).registry().len() && old(self).registry()[i].weight > 0
                        && res.kind == old(self).registry()[i].kind && res.color == old(
                        self,
                    ).registry()[i].color)
            },
    {
        proof {
            use_type_invariant(&*self);
        }
        let mut timer = self.timer;
        timer.tick(dt_ns);
        if !timer.is_finished() {
            self.timer = timer;
            return None;
        }
        let wait = random_in(&self.interval);
        self.timer = OnceTimer::new(wait);
        self.dispensed = self.dispensed + 1;
        match choose_weighted(self.defs.as_slice()) {
            Some(def) => Some(SpawnResult { kind: def.kind, color: def.color }),
            None => None,
        }
    }
}

} // verus!
