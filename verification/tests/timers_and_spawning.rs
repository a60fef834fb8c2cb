use breakout::powerups::super_sizer::{effect, paddle_width, register, DURATION_NS, SUPER_SIZED_WIDTH};
use breakout::powerups::{
    new_power_up_spawner, plan_power_up, power_up_gravity, reset_on_restart, tick_active_effects,
    ActiveEffects, PowerUpCollected, PowerUpKind, SPAWN_INTERVAL_MAX_NS, SPAWN_INTERVAL_MIN_NS,
};
use breakout::spawner::{choose_weighted, choose_weighted_at, SpawnDef, Spawner};
use breakout::timer::OnceTimer;

#[test]
fn timer_runs_once() {
    let mut t = OnceTimer::new(100);
    assert!(!t.is_finished());
    t.tick(40);
    assert_eq!(t.elapsed_ns(), 40);
    assert!(!t.is_finished());
    t.tick(60);
    assert!(t.is_finished());
    assert_eq!(t.elapsed_ns(), 100);
    t.tick(500);
    assert_eq!(t.elapsed_ns(), 100);
    assert!(t.is_finished());
    assert_eq!(t.duration_ns(), 100);
}

#[test]
fn timer_clamps_an_overshoot_and_a_zero_timer_finishes_on_its_first_tick() {
    let mut t = OnceTimer::new(10);
    t.tick(u64::MAX);
    assert!(t.is_finished());
    assert_eq!(t.elapsed_ns(), 10);
    let mut z = OnceTimer::new(0);
    assert!(!z.is_finished());
    z.tick(0);
    assert!(z.is_finished());
}

fn defs() -> Vec<SpawnDef<char, u8>> {
    vec![
        SpawnDef { kind: 'a', weight: 2, color: 1 },
        SpawnDef { kind: 'b', weight: 0, color: 2 },
        SpawnDef { kind: 'c', weight: 3, color: 3 },
    ]
}

#[test]
fn weighted_choice_by_roll() {
    let d = defs();
    assert_eq!(choose_weighted_at(&d, 0).unwrap().kind, 'a');
    assert_eq!(choose_weighted_at(&d, 1).unwrap().kind, 'a');
    assert_eq!(choose_weighted_at(&d, 2).unwrap().kind, 'c');
    assert_eq!(choose_weighted_at(&d, 4).unwrap().kind, 'c');
    // Past the total: the last entry.
    assert_eq!(choose_weighted_at(&d, 5).unwrap().kind, 'c');
    let empty: Vec<SpawnDef<char, u8>> = Vec::new();
    assert!(choose_weighted_at(&empty, 0).is_none());
}

#[test]
fn weighted_choice_never_picks_a_weightless_entry() {
    let d = vec![
        SpawnDef { kind: 'x', weight: 1, color: 0u8 },
        SpawnDef { kind: 'y', weight: 0, color: 0u8 },
    ];
    for _ in 0..200 {
        assert_eq!(choose_weighted(&d).unwrap().kind, 'x');
    }
    let d = defs();
    for _ in 0..200 {
        assert_ne!(choose_weighted(&d).unwrap().kind, 'b');
    }
}

#[test]
fn weighted_choice_with_no_weight_gives_nothing() {
    let d = vec![SpawnDef { kind: 'y', weight: 0, color: 0u8 }];
    assert!(choose_weighted(&d).is_none());
    let empty: Vec<SpawnDef<char, u8>> = Vec::new();
    assert!(choose_weighted(&empty).is_none());
}

#[test]
fn spawner_fires_within_its_interval() {
    for _ in 0..50 {
        let mut s: Spawner<char, u8> = Spawner::new(100..=200);
        s.register('k', 1, 7);
        assert!(s.tick(99).is_none());
        assert_eq!(s.dispensed(), 0);
        let r = s.tick(101).expect("fires by the longest wait");
        assert_eq!((r.kind, r.color), ('k', 7));
        assert_eq!(s.dispensed(), 1);
        // The next wait starts over.
        assert!(s.tick(99).is_none());
        assert!(s.tick(101).is_some());
        assert_eq!(s.dispensed(), 2);
        s.reset();
        assert_eq!(s.dispensed(), 0);
        assert!(s.tick(200).is_some());
    }
}

#[test]
fn spawner_with_empty_registry_fires_but_gives_nothing() {
    let mut s: Spawner<char, u8> = Spawner::new(5..=5);
    assert!(s.tick(5).is_none());
    assert_eq!(s.dispensed(), 1);
}

#[test]
fn power_ups_drop_from_a_brick() {
    let mut spawner = new_power_up_spawner::<u8>();
    register(&mut spawner, 9);
    let bricks = [(1, 2), (3, 4), (5, 6)];
    assert!(plan_power_up(&mut spawner, SPAWN_INTERVAL_MIN_NS - 1, &bricks).is_none());
    let plan = plan_power_up(&mut spawner, SPAWN_INTERVAL_MAX_NS, &bricks).expect("a drop");
    assert_eq!(plan.kind, PowerUpKind::SuperSizer);
    assert_eq!(plan.color, 9);
    assert!(bricks.contains(&plan.at));
    assert_eq!(plan.gravity, 140);
    let plan = plan_power_up(&mut spawner, SPAWN_INTERVAL_MAX_NS, &bricks).expect("a drop");
    assert_eq!(plan.gravity, 160);
    assert_eq!(spawner.dispensed(), 2);
    let none: [(i32, i32); 0] = [];
    assert!(plan_power_up(&mut spawner, SPAWN_INTERVAL_MAX_NS, &none).is_none());
    assert_eq!(spawner.dispensed(), 3);
}

#[test]
fn gravity_ramps_up_to_the_cap() {
    assert_eq!(power_up_gravity(0), 140);
    assert_eq!(power_up_gravity(1), 160);
    assert_eq!(power_up_gravity(13), 400);
    assert_eq!(power_up_gravity(14), 420);
    assert_eq!(power_up_gravity(15), 420);
    assert_eq!(power_up_gravity(u32::MAX), 420);
}

#[test]
fn super_sizer_lasts_its_duration() {
    let mut active = ActiveEffects::default();
    assert_eq!(paddle_width(&active), 120);
    effect(&mut active, &PowerUpCollected { kind: PowerUpKind::SuperSizer });
    assert!(active.is_active(PowerUpKind::SuperSizer));
    assert_eq!(paddle_width(&active), SUPER_SIZED_WIDTH);
    assert_eq!(SUPER_SIZED_WIDTH, 150);
    tick_active_effects(&mut active, DURATION_NS - 1);
    assert!(active.is_active(PowerUpKind::SuperSizer));
    // Catching another starts the time over.
    effect(&mut active, &PowerUpCollected { kind: PowerUpKind::SuperSizer });
    tick_active_effects(&mut active, DURATION_NS - 1);
    assert!(active.is_active(PowerUpKind::SuperSizer));
    tick_active_effects(&mut active, 1);
    assert!(!active.is_active(PowerUpKind::SuperSizer));
    assert_eq!(paddle_width(&active), 120);
}

#[test]
fn refresh_keeps_a_single_entry_and_clear_ends_everything() {
    let mut active = ActiveEffects::default();
    active.refresh_or_insert(PowerUpKind::SuperSizer, 10);
    active.refresh_or_insert(PowerUpKind::SuperSizer, 10);
    tick_active_effects(&mut active, 10);
    assert!(!active.is_active(PowerUpKind::SuperSizer));
    active.refresh_or_insert(PowerUpKind::SuperSizer, 10);
    active.clear();
    assert!(!active.is_active(PowerUpKind::SuperSizer));
}

#[test]
fn restart_resets_spawner_and_effects() {
    let mut spawner = new_power_up_spawner::<u8>();
    register(&mut spawner, 1);
    let bricks = [0u8];
    plan_power_up(&mut spawner, SPAWN_INTERVAL_MAX_NS, &bricks);
    assert_eq!(spawner.dispensed(), 1);
    let mut active = ActiveEffects::default();
    active.refresh_or_insert(PowerUpKind::SuperSizer, DURATION_NS);
    reset_on_restart(&mut spawner, &mut active);
    assert_eq!(spawner.dispensed(), 0);
    assert!(!active.is_active(PowerUpKind::SuperSizer));
    // The registry stays: the next drop still comes.
    assert!(plan_power_up(&mut spawner, SPAWN_INTERVAL_MAX_NS, &bricks).is_some());
}
