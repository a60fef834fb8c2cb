//! The Super-Sizer: while in force, the paddle is a quarter wider.
use crate::layout::PADDLE_WIDTH;
use crate::powerups::{
    effects_wf, has_kind, refreshed, ActiveEffects, PowerUpCollected, PowerUpKind, PowerUpSpawner,
};
use crate::spawner::{weight_sum, SpawnDef};
use vstd::prelude::*;

verus! {

/// The Super-Sizer's weight among the power-ups.
pub const WEIGHT: u32 = 1;
/// How long the Super-Sizer lasts, in nanoseconds.
pub const DURATION_NS: u64 = 7_000_000_000;
/// The paddle's width while the Super-Sizer is in force: the plain width
/// times one and a quarter.
pub const SUPER_SIZED_WIDTH: i32 = 150;

/// The super-sized paddle is exactly a quarter wider than the plain one.
pub proof fn lemma_super_sized_is_a_quarter_wider()
    ensures
        SUPER_SIZED_WIDTH * 4 == PADDLE_WIDTH * 5,
{
}

/// Puts the Super-Sizer in the power-up registry with its weight and the
/// given color.
pub fn register<C: Copy>(spawner: &mut PowerUpSpawner<C>, color: C)
    requires
        weight_sum(old(spawner).registry()) + WEIGHT <= u64::MAX,
    ensures
        final(spawner).wf(),
        final(spawner).registry() == old(spawner).registry().push(
            SpawnDef { kind: PowerUpKind::SuperSizer, weight: WEIGHT, color },
        ),
        final(spawner).timer_state() == old(spawner).timer_state(),
        final(spawner).fired() == old(spawner).fired(),
        final(spawner).min_wait() == old(spawner).min_wait(),
        final(spawner).max_wait() == old(spawner).max_wait(),
{
    spawner.register(PowerUpKind::SuperSizer, WEIGHT, color);
}

/// Catching a Super-Sizer starts its effect, or starts its time over when
/// it is already in force.
pub fn effect(active: &mut ActiveEffects, collected: &PowerUpCollected)
    ensures
        effects_wf(final(active)@),
        has_kind(final(active)@, PowerUpKind::SuperSizer),
        final(active)@ == refreshed(old(active)@, PowerUpKind::SuperSizer, DURATION_NS as nat),
{
    if collected.kind == PowerUpKind::SuperSizer {
        active.refresh_or_insert(PowerUpKind::SuperSizer, DURATION_NS);
    }
}

/// The paddle's width: super-sized while the effect is in force, plain
/// otherwise.
pub fn paddle_width(active: &ActiveEffects) -> (w: i32)
    ensures
        w == (if has_kind(active@, PowerUpKind::SuperSizer) {
            SUPER_SIZED_WIDTH
        } else {
            PADDLE_WIDTH
        }),
{
    if active.is_active(PowerUpKind::SuperSizer) {
        SUPER_SIZED_WIDTH
    } else {
        PADDLE_WIDTH
    }
}

} // verus!
