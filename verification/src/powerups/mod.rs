//! Power-ups: falling pickups that drop from a random brick every so often
//! and, once caught by the paddle, start a timed effect. Systems that care
//! about an effect recompute what they derive from the list of active
//! effects every frame, so an effect running out needs no undo step.
pub mod super_sizer;

use crate::random::choose_from;
use crate::spawner::{weight_sum, SpawnDef, Spawner};
use crate::timer::{fresh_timer, lemma_ticked_compose, ticked, OnceTimer, TimerState};
use vstd::prelude::*;

verus! {

/// The side of a power-up's square, in pixels.
pub const POWER_UP_SIZE: i32 = 24;
/// The shortest wait between two power-ups, in nanoseconds.
pub const SPAWN_INTERVAL_MIN_NS: u64 = 7_000_000_000;
/// The longest wait between two power-ups, in nanoseconds.
pub const SPAWN_INTERVAL_MAX_NS: u64 = 10_000_000_000;
/// The pull on the first power-up of a run, in pixels per second squared.
pub const BASE_GRAVITY: u32 = 140;
/// How much heavier each later power-up falls.
pub const GRAVITY_STEP: u32 = 20;
/// The most a power-up can be pulled.
pub const MAX_GRAVITY: u32 = 420;

/// Every power-up type.
#[derive(Clone, Copy, PartialEq, Eq, Debug, Hash, Structural)]
pub enum PowerUpKind {
    SuperSizer,
}

/// A falling power-up was caught by the paddle.
#[derive(Clone, Copy, PartialEq, Eq, Debug, Structural)]
pub struct PowerUpCollected {
    pub kind: PowerUpKind,
}

/// The spawner that decides when power-ups drop and of which kind; `C` is
/// the color type the renderer uses.
pub type PowerUpSpawner<C> = Spawner<PowerUpKind, C>;

/// An effect in force, with the timer counting down its time.
#[derive(Clone, Copy)]
pub struct ActiveEffect {
    kind: PowerUpKind,
    timer: OnceTimer,
}

/// The effects in force.
pub struct ActiveEffects(Vec<ActiveEffect>);

/// The effects left after ticking every timer by `dt` nanoseconds: those
/// whose timers did not run out, in the same order.
pub open spec fn survivors(effects: Seq<(PowerUpKind, TimerState)>, dt: nat) -> Seq<
    (PowerUpKind, TimerState),
> {
    effects.map_values(|e: (PowerUpKind, TimerState)| (e.0, ticked(e.1, dt))).filter(
        |e: (PowerUpKind, TimerState)| !e.1.finished,
    )
}

/// Some effect of `kind` is in `effects`.
pub open spec fn has_kind(effects: Seq<(PowerUpKind, TimerState)>, kind: PowerUpKind) -> bool {
    exists|i: int| 0 <= i < effects.len() && effects[i].0 == kind
}

/// Where the effect of `kind` stands in `effects`, when there is one.
pub open spec fn kind_index(effects: Seq<(PowerUpKind, TimerState)>, kind: PowerUpKind) -> int {
    choose|i: int| 0 <= i < effects.len() && effects[i].0 == kind
}

/// `effects` after starting an effect of `kind` for `duration` nanoseconds:
/// the effect of that kind in force starts its time over, or, when there
/// is none, the new effect joins at the end.
pub open spec fn refreshed(
    effects: Seq<(PowerUpKind, TimerState)>,
    kind: PowerUpKind,
    duration: nat,
) -> Seq<(PowerUpKind, TimerState)> {
    if has_kind(effects, kind) {
        effects.update(kind_index(effects, kind), (kind, fresh_timer(duration)))
    } else {
        effects.push((kind, fresh_timer(duration)))
    }
}

/// Every timer in `effects` is well formed.
pub open spec fn timers_wf(effects: Seq<(PowerUpKind, TimerState)>) -> bool {
    forall|i: int| 0 <= i < effects.len() ==> (#[trigger] effects[i]).1.wf()
}

/// No kind is in force twice, and every timer is well formed.
pub open spec fn effects_wf(effects: Seq<(PowerUpKind, TimerState)>) -> bool {
    &&& timers_wf(effects)
    &&& forall|i: int, j: int|
        0 <= i < j < effects.len() ==> (#[trigger] effects[i]).0 != (#[trigger] effects[j]).0
}

/// What a list of effects in force holds: each kind with its timer.
spec fn effects_of(effects: Seq<ActiveEffect>) -> Seq<(PowerUpKind, TimerState)> {
    effects.map_values(|e: ActiveEffect| (e.kind, e.timer@))
}

impl View for ActiveEffects {
    type V = Seq<(PowerUpKind, TimerState)>;

    closed spec fn view(&self) -> Seq<(PowerUpKind, TimerState)> {
        effects_of(self.0@)
    }
}

impl ActiveEffects {
    /// No kind is in force twice, and every timer is well formed.
    #[verifier::type_invariant]
    spec fn inv(self) -> bool {
        effects_wf(self@)
    }
}

impl Default for ActiveEffects {
    fn default() -> (a: Self)
        ensures
            a@ == Seq::<(PowerUpKind, TimerState)>::empty(),
            effects_wf(a@),
    {
        let a = ActiveEffects(Vec::new());
        assert(a@ =~= Seq::<(PowerUpKind, TimerState)>::empty());
        a
    }
}

/// Ticking one more effect: it joins the survivors exactly when its timer
/// does not run out.
proof fn lemma_survivors_step(s: Seq<(PowerUpKind, TimerState)>, i: int, dt: nat)
    requires
        0 <= i < s.len(),
    ensures
        survivors(s.take(i + 1), dt) == (if ticked(s[i].1, dt).finished {
            survivors(s.take(i), dt)
        } else {
            survivors(s.take(i), dt).push((s[i].0, ticked(s[i].1, dt)))
        }),
{
    let f = |e: (PowerUpKind, TimerState)| (e.0, ticked(e.1, dt));
    let p = |e: (PowerUpKind, TimerState)| !e.1.finished;
    let m1 = s.take(i + 1).map_values(f);
    let m0 = s.take(i).map_values(f);
    assert(m1.drop_last() =~= m0);
    assert(m1.last() == f(s[i]));
    assert(m1.len() > 0);
    reveal(Seq::filter);
    assert(m1.filter(p) == (if p(m1.last()) {
        m1.drop_last().filter(p).push(m1.last())
    } else {
        m1.drop_last().filter(p)
    }));
}

impl ActiveEffects {
    /// Ends every effect.
    pub fn clear(&mut self)
        ensures
            final(self)@ == Seq::<(PowerUpKind, TimerState)>::empty(),
            effects_wf(final(self)@),
    {
        self.0 = Vec::new();
        assert(self@ =~= Seq::<(PowerUpKind, TimerState)>::empty());
    }

    /// Whether an effect of `kind` is in force.
    pub fn is_active(&self, kind: PowerUpKind) -> (b: bool)
        ensures
            b == has_kind(self@, kind),
    {
        let mut i: usize = 0;
        while i < self.0.len()
            invariant
                i <= self.0@.len(),
                self@.len() == self.0@.len(),
                forall|j: int| 0 <= j < i ==> self@[j].0 != kind,
            decreases self.0.len() - i,
        {
            if self.0[i].kind == kind {
                assert(self@[i as int].0 == kind);
                return true;
            }
            i = i + 1;
        }
        false
    }

    /// Starts an effect of `kind` lasting `duration_ns` nanoseconds: the
    /// timer of the effect of that kind in force, if any, starts over;
    /// otherwise the effect is added at the end.
    pub fn refresh_or_insert(&mut self, kind: PowerUpKind, duration_ns: u64)
        ensures
            effects_wf(final(self)@),
            has_kind(final(self)@, kind),
            final(self)@ == refreshed(old(self)@, kind, duration_ns as nat),
    {
        proof {
            use_type_invariant(&*self);
        }
        let ghost old_view = self@;
        let mut effects: Vec<ActiveEffect> = Vec::new();
        std::mem::swap(&mut effects, &mut self.0);
        let mut i: usize = 0;
        while i < effects.len()
            invariant
                i <= effects@.len(),
                effects_of(effects@) == old_view,
                old(self)@ == old_view,
                effects_wf(old_view),
                forall|j: int| 0 <= j < i ==> old_view[j].0 != kind,
            decreases effects.len() - i,
        {
            if effects[i].kind == kind {
                assert(old_view[i as int].0 == kind);
                effects.set(i, ActiveEffect { kind, timer: OnceTimer::new(duration_ns) });
                let ghost now = effects_of(effects@);
                assert(now =~= old_view.update(i as int, (kind, fresh_timer(duration_ns as nat))));
                assert(now[i as int].0 == kind);
                assert(has_kind(old_view, kind));
                proof {
                    let c = kind_index(old_view, kind);
                    assert(old_view[c].0 == kind);
                    if c != i as int {
                        if c < i as int {
                            assert(old_view[c].0 != kind);
                        } else {
                            assert(old_view[i as int].0 != old_view[c].0);
                        }
                    }
                }
                assert forall|a: int, b: int|
                    0 <= a < b < now.len() implies (#[trigger] now[a]).0 != (#[trigger] now[b]).0 by {
                    assert(old_view[a].0 != old_view[b].0);
                }
                assert forall|a: int| 0 <= a < now.len() implies (#[trigger] now[a]).1.wf() by {
                    if a != i {
                        assert(old_view[a].1.wf());
                    }
                }
                self.0 = effects;
                return;
            }
            i = i + 1;
        }
        effects.push(ActiveEffect { kind, timer: OnceTimer::new(duration_ns) });
        let ghost now = effects_of(effects@);
        assert(now =~= old_view.push((kind, fresh_timer(duration_ns as nat))));
        assert(now[old_view.len() as int].0 == kind);
        assert forall|a: int, b: int|
            0 <= a < b < now.len() implies (#[trigger] now[a]).0 != (#[trigger] now[b]).0 by {
            if b < old_view.len() {
                assert(old_view[a].0 != old_view[b].0);
            } else {
                assert(old_view[a].0 != kind);
            }
        }
        assert forall|a: int| 0 <= a < now.len() implies (#[trigger] now[a]).1.wf() by {
            if a < old_view.len() {
                assert(old_view[a].1.wf());
            }
        }
        self.0 = effects;
    }
}

/// A kind is in force after a tick exactly when an effect of it was in
/// force among the first `n` and its timer did not run out.
proof fn lemma_survivor_kinds_prefix(
    s: Seq<(PowerUpKind, TimerState)>,
    dt: nat,
    k: PowerUpKind,
    n: int,
)
    requires
        0 <= n <= s.len(),
    ensures
        has_kind(survivors(s.take(n), dt), k) <==> exists|i: int|
            0 <= i < n && s[i].0 == k && !ticked(s[i].1, dt).finished,
    decreases n,
{
    if n == 0 {
        reveal(Seq::filter);
        let f = |e: (PowerUpKind, TimerState)| (e.0, ticked(e.1, dt));
        assert(s.take(0).map_values(f).len() == 0);
    } else {
        lemma_survivor_kinds_prefix(s, dt, k, n - 1);
        lemma_survivors_step(s, n - 1, dt);
        let prev = survivors(s.take(n - 1), dt);
        let cur = survivors(s.take(n), dt);
        if has_kind(cur, k) {
            let j = choose|j: int| 0 <= j < cur.len() && cur[j].0 == k;
            if j < prev.len() {
                assert(prev[j] == cur[j]);
                assert(has_kind(prev, k));
            } else {
                assert(s[n - 1].0 == k && !ticked(s[n - 1].1, dt).finished);
            }
        }
        if exists|i: int| 0 <= i < n && s[i].0 == k && !ticked(s[i].1, dt).finished {
            let i = choose|i: int| 0 <= i < n && s[i].0 == k && !ticked(s[i].1, dt).finished;
            if i < n - 1 {
                let j = choose|j: int| 0 <= j < prev.len() && prev[j].0 == k;
                assert(cur[j] == prev[j]);
            } else {
                assert(cur[prev.len() as int].0 == k);
            }
        }
    }
}

/// A kind is in force after a tick of `dt` nanoseconds exactly when an
/// effect of it was in force and its timer did not run out.
pub proof fn lemma_survivor_kinds(s: Seq<(PowerUpKind, TimerState)>, dt: nat, k: PowerUpKind)
    ensures
        has_kind(survivors(s, dt), k) <==> exists|i: int|
            0 <= i < s.len() && s[i].0 == k && !ticked(s[i].1, dt).finished,
{
    lemma_survivor_kinds_prefix(s, dt, k, s.len() as int);
    assert(s.take(s.len() as int) =~= s);
}

/// An effect just started for `duration` nanoseconds is still in force
/// after a further `dt` nanoseconds exactly when `dt` is shorter than
/// `duration`.
pub proof fn lemma_effect_lasts_its_duration(
    s: Seq<(PowerUpKind, TimerState)>,
    kind: PowerUpKind,
    duration: nat,
    dt: nat,
)
    requires
        effects_wf(s),
    ensures
        has_kind(survivors(refreshed(s, kind, duration), dt), kind) <==> dt < duration,
{
    let r = refreshed(s, kind, duration);
    lemma_survivor_kinds(r, dt, kind);
    let idx = if has_kind(s, kind) {
        kind_index(s, kind)
    } else {
        s.len() as int
    };
    assert(r[idx] == (kind, fresh_timer(duration)));
    if dt < duration {
        assert(!ticked(r[idx].1, dt).finished);
    } else {
        assert forall|i: int| 0 <= i < r.len() && r[i].0 == kind implies ticked(
            r[i].1,
            dt,
        ).finished by {
            if i != idx {
                if has_kind(s, kind) {
                    assert(s[i].0 == kind && s[idx].0 == kind);
                    if i < idx {
                        assert(s[i].0 != s[idx].0);
                    } else {
                        assert(s[idx].0 != s[i].0);
                    }
                } else {
                    assert(s[i].0 == kind);
                }
            }
        }
    }
}

/// Ticking after one more effect: it joins the survivors exactly when its
/// timer does not run out.
proof fn lemma_survivors_push(
    t: Seq<(PowerUpKind, TimerState)>,
    y: (PowerUpKind, TimerState),
    dt: nat,
)
    ensures
        survivors(t.push(y), dt) == (if ticked(y.1, dt).finished {
            survivors(t, dt)
        } else {
            survivors(t, dt).push((y.0, ticked(y.1, dt)))
        }),
{
    let f = |e: (PowerUpKind, TimerState)| (e.0, ticked(e.1, dt));
    let p = |e: (PowerUpKind, TimerState)| !e.1.finished;
    let m1 = t.push(y).map_values(f);
    assert(m1.drop_last() =~= t.map_values(f));
    assert(m1.last() == f(y));
    reveal(Seq::filter);
    assert(m1.filter(p) == (if p(m1.last()) {
        m1.drop_last().filter(p).push(m1.last())
    } else {
        m1.drop_last().filter(p)
    }));
}

proof fn lemma_survivors_compose_prefix(
    s: Seq<(PowerUpKind, TimerState)>,
    a: nat,
    b: nat,
    n: int,
)
    requires
        timers_wf(s),
        0 <= n <= s.len(),
    ensures
        survivors(survivors(s.take(n), a), b) == survivors(s.take(n), a + b),
    decreases n,
{
    if n == 0 {
        reveal(Seq::filter);
        let fa = |e: (PowerUpKind, TimerState)| (e.0, ticked(e.1, a));
        let fab = |e: (PowerUpKind, TimerState)| (e.0, ticked(e.1, a + b));
        assert(s.take(0).map_values(fa).len() == 0);
        assert(s.take(0).map_values(fab).len() == 0);
        let t = survivors(s.take(0), a);
        let fb = |e: (PowerUpKind, TimerState)| (e.0, ticked(e.1, b));
        assert(t.map_values(fb).len() == 0);
        assert(survivors(t, b) =~= survivors(s.take(0), a + b));
    } else {
        let x = s[n - 1];
        assert(x.1.wf());
        lemma_survivors_compose_prefix(s, a, b, n - 1);
        lemma_survivors_step(s, n - 1, a);
        lemma_survivors_step(s, n - 1, a + b);
        lemma_ticked_compose(x.1, a, b);
        let t = survivors(s.take(n - 1), a);
        if !ticked(x.1, a).finished {
            lemma_survivors_push(t, (x.0, ticked(x.1, a)), b);
        }
    }
}

/// Ticking by `a` and then by `b` leaves the same effects as ticking by
/// `a + b` at once.
pub proof fn lemma_survivors_compose(s: Seq<(PowerUpKind, TimerState)>, a: nat, b: nat)
    requires
        timers_wf(s),
    ensures
        survivors(survivors(s, a), b) == survivors(s, a + b),
{
    lemma_survivors_compose_prefix(s, a, b, s.len() as int);
    assert(s.take(s.len() as int) =~= s);
}

/// The effects left after ticking by each of `dts` in turn.
pub open spec fn after_ticks(effects: Seq<(PowerUpKind, TimerState)>, dts: Seq<nat>) -> Seq<
    (PowerUpKind, TimerState),
>
    decreases dts.len(),
{
    if dts.len() == 0 {
        effects
    } else {
        survivors(after_ticks(effects, dts.drop_last()), dts.last())
    }
}

/// The sum of `dts`.
pub open spec fn total_time(dts: Seq<nat>) -> nat
    decreases dts.len(),
{
    if dts.len() == 0 {
        0
    } else {
        total_time(dts.drop_last()) + dts.last()
    }
}

/// A run of ticks leaves the same effects as a single tick by their total.
pub proof fn lemma_after_ticks_is_one_tick(s: Seq<(PowerUpKind, TimerState)>, dts: Seq<nat>)
    requires
        timers_wf(s),
        dts.len() > 0,
    ensures
        after_ticks(s, dts) == survivors(s, total_time(dts)),
    decreases dts.len(),
{
    if dts.len() > 1 {
        lemma_after_ticks_is_one_tick(s, dts.drop_last());
        lemma_survivors_compose(s, total_time(dts.drop_last()), dts.last());
    } else {
        assert(dts.drop_last().len() == 0);
        assert(after_ticks(s, dts.drop_last()) == s);
        assert(total_time(dts.drop_last()) == 0);
    }
}

/// An effect just started for `duration` nanoseconds is still in force
/// after any run of ticks exactly when their total is shorter than
/// `duration`: it expires by itself, with nothing to undo.
pub proof fn lemma_effect_lasts_over_ticks(
    s: Seq<(PowerUpKind, TimerState)>,
    kind: PowerUpKind,
    duration: nat,
    dts: Seq<nat>,
)
    requires
        effects_wf(s),
        dts.len() > 0,
    ensures
        has_kind(after_ticks(refreshed(s, kind, duration), dts), kind) <==> total_time(dts)
            < duration,
{
    let r = refreshed(s, kind, duration);
    assert forall|i: int| 0 <= i < r.len() implies (#[trigger] r[i]).1.wf() by {
        if i < s.len() && r[i] == s[i] {
            assert(s[i].1.wf());
        }
    }
    lemma_after_ticks_is_one_tick(r, dts);
    lemma_effect_lasts_its_duration(s, kind, duration, total_time(dts));
}

/// Counts every active effect's time down by `dt_ns` nanoseconds and drops
/// the effects whose time ran out.
pub fn tick_active_effects(active: &mut ActiveEffects, dt_ns: u64)
    ensures
        final(active)@ == survivors(old(active)@, dt_ns as nat),
        effects_wf(final(active)@),
{
    proof {
        use_type_invariant(&*active);
    }
    let ghost old_view = active@;
    let mut kept: Vec<ActiveEffect> = Vec::new();
    let mut i: usize = 0;
    while i < active.0.len()
        invariant
            i <= active.0@.len(),
            active@ == old_view,
            old_view.len() == active.0@.len(),
            effects_wf(old_view),
            kept@.map_values(|e: ActiveEffect| (e.kind, e.timer@)) == survivors(
                old_view.take(i as int),
                dt_ns as nat,
            ),
            forall|k: int|
                0 <= k < kept@.len() ==> exists|j: int|
                    0 <= j < i && old_view[j].0 == (#[trigger] kept@[k]).kind,
            forall|k: int| 0 <= k < kept@.len() ==> (#[trigger] kept@[k]).timer@.wf(),
            forall|k: int, l: int|
                0 <= k < l < kept@.len() ==> (#[trigger] kept@[k]).kind != (#[trigger] kept@[l]).kind,
        decreases active.0.len() - i,
    {
        let mut e = active.0[i];
        assert(old_view[i as int] == (e.kind, e.timer@));
        proof {
            lemma_survivors_step(old_view, i as int, dt_ns as nat);
        }
        e.timer.tick(dt_ns);
        if !e.timer.is_finished() {
            let ghost before = kept@;
            kept.push(e);
            assert(kept@.map_values(|e: ActiveEffect| (e.kind, e.timer@)) =~= before.map_values(
                |e: ActiveEffect| (e.kind, e.timer@),
            ).push((e.kind, e.timer@)));
            assert forall|k: int| 0 <= k < kept@.len() implies exists|j: int|
                0 <= j < i + 1 && old_view[j].0 == (#[trigger] kept@[k]).kind by {
                if k < before.len() {
                    assert(before[k] == kept@[k]);
                } else {
                    assert(old_view[i as int].0 == kept@[k].kind);
                }
            }
            assert forall|k: int, l: int|
                0 <= k < l < kept@.len() implies (#[trigger] kept@[k]).kind != (
            #[trigger] kept@[l]).kind by {
                if l == before.len() {
                    assert(before[k] == kept@[k]);
                    let j = choose|j: int| 0 <= j < i && old_view[j].0 == before[k].kind;
                    assert(old_view[j].0 != old_view[i as int].0);
                } else {
                    assert(before[k] == kept@[k]);
                    assert(before[l] == kept@[l]);
                }
            }
        }
        i = i + 1;
    }
    assert(old_view.take(old_view.len() as int) =~= old_view);
    active.0 = kept;
}

/// The pull on a power-up given how many came before it in this run: each
/// one a little heavier than the last, up to the cap.
pub fn power_up_gravity(dispensed_before: u32) -> (g: u32)
    ensures
        g == (if BASE_GRAVITY + GRAVITY_STEP * dispensed_before <= MAX_GRAVITY {
            BASE_GRAVITY + GRAVITY_STEP * dispensed_before
        } else {
            MAX_GRAVITY as int
        }),
{
    if dispensed_before >= (MAX_GRAVITY - BASE_GRAVITY) / GRAVITY_STEP {
        MAX_GRAVITY
    } else {
        BASE_GRAVITY + GRAVITY_STEP * dispensed_before
    }
}

/// The power-up spawner with an empty registry, waiting between the
/// shortest and the longest interval.
pub fn new_power_up_spawner<C: Copy>() -> (s: PowerUpSpawner<C>)
    ensures
        s.wf(),
        s.min_wait() == SPAWN_INTERVAL_MIN_NS,
        s.max_wait() == SPAWN_INTERVAL_MAX_NS,
        s.timer_restarted(),
        s.registry() == Seq::<SpawnDef<PowerUpKind, C>>::empty(),
        s.fired() == 0,
{
    Spawner::new(SPAWN_INTERVAL_MIN_NS..=SPAWN_INTERVAL_MAX_NS)
}

/// A power-up about to drop: its kind and color, the brick it drops from,
/// and its pull.
pub struct PowerUpPlan<P, C> {
    pub kind: PowerUpKind,
    pub color: C,
    pub at: P,
    pub gravity: u32,
}

/// The frame's power-up drop, if any: ticks the spawner by `dt_ns`
/// nanoseconds and, when it hands out a kind, picks a random brick among
/// `bricks` to drop it from, with a pull set by how many power-ups came
/// before it in this run. Nothing drops when the timer did not run out,
/// the registry has no weight, or there are no bricks.
pub fn plan_power_up<P: Copy, C: Copy>(
    spawner: &mut PowerUpSpawner<C>,
    dt_ns: u64,
    bricks: &[P],
) -> (r: Option<PowerUpPlan<P, C>>)
    requires
        ticked(old(spawner).timer_state(), dt_ns as nat).finished ==> old(spawner).fired()
            < u32::MAX,
    ensures
        final(spawner).wf(),
        final(spawner).registry() == old(spawner).registry(),
        final(spawner).min_wait() == old(spawner).min_wait(),
        final(spawner).max_wait() == old(spawner).max_wait(),
        !ticked(old(spawner).timer_state(), dt_ns as nat).finished ==> {
            &&& final(spawner).timer_state() == ticked(old(spawner).timer_state(), dt_ns as nat)
            &&& final(spawner).fired() == old(spawner).fired()
        },
        ticked(old(spawner).timer_state(), dt_ns as nat).finished ==> {
            &&& final(spawner).timer_restarted()
            &&& final(spawner).fired() == old(spawner).fired() + 1
        },
        r is None <==> (!ticked(old(spawner).timer_state(), dt_ns as nat).finished || weight_sum(
            old(spawner).registry(),
        ) == 0 || bricks@.len() == 0),
        r matches Some(plan) ==> {
            &&& exists|i: int|
                0 <= i < old(spawner).registry().len() && old(spawner).registry()[i].weight > 0
                    && plan.kind == old(spawner).registry()[i].kind && plan.color == old(
                    spawner,
                ).registry()[i].color
            &&& exists|j: int| 0 <= j < bricks@.len() && bricks@[j] == plan.at
            &&& plan.gravity == (if BASE_GRAVITY + GRAVITY_STEP * old(spawner).fired()
                <= MAX_GRAVITY {
                BASE_GRAVITY + GRAVITY_STEP * old(spawner).fired()
            } else {
                MAX_GRAVITY as int
            })
        },
{
    let dispensed_before = spawner.dispensed();
    let result = match spawner.tick(dt_ns) {
        Some(result) => result,
        None => {
            return None;
        },
    };
    let at = match choose_from(bricks) {
        Some(p) => *p,
        None => {
            return None;
        },
    };
    Some(
        PowerUpPlan {
            kind: result.kind,
            color: result.color,
            at,
            gravity: power_up_gravity(dispensed_before),
        },
    )
}

/// A new run: the spawner draws a new wait and forgets how many power-ups
/// it handed out, and every effect ends.
pub fn reset_on_restart<C: Copy>(spawner: &mut PowerUpSpawner<C>, active: &mut ActiveEffects)
    ensures
        final(spawner).wf(),
        final(spawner).timer_restarted(),
        final(spawner).fired() == 0,
        final(spawner).registry() == old(spawner).registry(),
        final(spawner).min_wait() == old(spawner).min_wait(),
        final(spawner).max_wait() == old(spawner).max_wait(),
        final(active)@ == Seq::<(PowerUpKind, TimerState)>::empty(),
        effects_wf(final(active)@),
{
    spawner.reset();
    active.clear();
}

} // verus!
