use alife::effects::{DurationEffect, Effect, InstantEffect, IntervalEffect};
use alife::entities::{effect_for_byte, Bounds, Pellet, Weights, PELLET_RADIUS};
use alife::world::{World, AGENT_CAP, PELLET_CAP, SEED_AGENTS, SEED_PELLETS};

fn arena() -> Bounds {
    Bounds { left: -50_000, right: 50_000, bottom: -40_000, top: 40_000 }
}

fn poison_default() -> Effect {
    Effect::Poison(IntervalEffect { change: -10, tick_interval: 3, duration: 60 })
}

#[test]
fn effect_buckets_have_the_documented_boundaries() {
    assert_eq!(effect_for_byte(0), poison_default());
    assert_eq!(effect_for_byte(51), poison_default());
    assert_eq!(effect_for_byte(52), Effect::Heal(InstantEffect { change: 25 }));
    assert_eq!(effect_for_byte(103), Effect::Heal(InstantEffect { change: 25 }));
    assert_eq!(effect_for_byte(104), Effect::Feed(InstantEffect { change: 64 }));
    assert_eq!(effect_for_byte(154), Effect::Feed(InstantEffect { change: 64 }));
    assert_eq!(
        effect_for_byte(155),
        Effect::SpeedUp(DurationEffect { change: 2_000, duration: 180 })
    );
    assert_eq!(
        effect_for_byte(205),
        Effect::SpeedUp(DurationEffect { change: 2_000, duration: 180 })
    );
    assert_eq!(
        effect_for_byte(206),
        Effect::SlowDown(DurationEffect { change: -2_000, duration: 180 })
    );
    assert_eq!(
        effect_for_byte(255),
        Effect::SlowDown(DurationEffect { change: -2_000, duration: 180 })
    );
}

#[test]
fn pellet_spawns_inside_bounds_with_fixed_radius() {
    let bounds = arena();
    for _ in 0..200 {
        let p = Pellet::new(&bounds, None);
        assert!(bounds.left <= p.x && p.x <= bounds.right);
        assert!(bounds.bottom <= p.y && p.y <= bounds.top);
        assert_eq!(p.radius, PELLET_RADIUS);
        let is_default = matches!(
            p.effect,
            Effect::Poison(IntervalEffect { change: -10, tick_interval: 3, duration: 60 })
                | Effect::Heal(InstantEffect { change: 25 })
                | Effect::Feed(InstantEffect { change: 64 })
                | Effect::SpeedUp(DurationEffect { change: 2_000, duration: 180 })
                | Effect::SlowDown(DurationEffect { change: -2_000, duration: 180 })
        );
        assert!(is_default);
    }
}

#[test]
fn pellet_keeps_a_supplied_effect() {
    let p = Pellet::new(&arena(), Some(Effect::Heal(InstantEffect { change: 25 })));
    assert_eq!(p.effect, Effect::Heal(InstantEffect { change: 25 }));
    assert_eq!(p.effect(), Effect::Heal(InstantEffect { change: 25 }));
    assert_eq!(p.radius(), PELLET_RADIUS);
    assert_eq!(p.x_y(), (p.x, p.y));
}

#[test]
fn random_weights_stay_in_their_documented_ranges() {
    for _ in 0..100 {
        let w = Weights::random();
        assert!(-10_000 <= w.poison && w.poison <= 5_000);
        assert!(-5_000 <= w.heal && w.heal <= 10_000);
        assert!(-8_000 <= w.feed && w.feed <= 8_000);
        assert!(-5_000 <= w.slow_down && w.slow_down <= 5_000);
        assert!(-5_000 <= w.speed_up && w.speed_up <= 5_000);
    }
}

#[test]
fn mutation_moves_each_coefficient_by_at_most_five_units() {
    let w = Weights { poison: -4_000, heal: 2_000, feed: 0, slow_down: 5_000, speed_up: -5_000 };
    for _ in 0..100 {
        let m = w.mutate();
        assert!((m.poison - w.poison).abs() <= 5_000);
        assert!((m.heal - w.heal).abs() <= 5_000);
        assert!((m.feed - w.feed).abs() <= 5_000);
        assert!((m.slow_down - w.slow_down).abs() <= 5_000);
        assert!((m.speed_up - w.speed_up).abs() <= 5_000);
    }
}

#[test]
fn seeded_world_has_the_documented_populations() {
    let w = World::new(&arena());
    assert_eq!(w.tick, 0);
    assert_eq!(w.pellets.len(), SEED_PELLETS);
    assert_eq!(w.agents.len(), SEED_AGENTS);
}

#[test]
fn stepping_advances_the_tick_and_respects_the_caps() {
    let bounds = arena();
    let mut w = World::new(&bounds);
    for expected in 1..=50u64 {
        w.step(&bounds);
        assert_eq!(w.tick, expected);
        assert!(w.pellets.len() <= PELLET_CAP);
        assert!(w.agents.len() <= AGENT_CAP.max(SEED_AGENTS));
        for a in &w.agents {
            // Survivors report live vitals and stay in bounds; fresh
            // offspring start at their maxima inside the bounds too.
            assert!(a.food >= 0);
            assert!(a.hp <= a.base_stats.hp);
            assert!(bounds.left <= a.x && a.x <= bounds.right);
            assert!(bounds.bottom <= a.y && a.y <= bounds.top);
        }
    }
}
