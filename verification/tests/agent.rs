use alife::effects::{DurationEffect, Effect, InstantEffect, IntervalEffect};
use alife::entities::{AgentColor, Bounds, Pellet, SimpleAgent, Stats, Weights, PELLET_RADIUS};

fn arena() -> Bounds {
    Bounds { left: -100_000, right: 100_000, bottom: -100_000, top: 100_000 }
}

fn calm_stats() -> Stats {
    Stats { hp: 100, food: 100, speed: 10_000, tick_hunger: 0, starving_pain: 0 }
}

fn zero_weights() -> Weights {
    Weights { poison: 0, heal: 0, feed: 0, slow_down: 0, speed_up: 0 }
}

fn agent_at_origin(stats: Stats, weights: Weights) -> SimpleAgent {
    SimpleAgent::new(0, 0, stats, Some(weights), None)
}

#[test]
fn eat_queues_effect_and_leaves_velocity_alone() {
    // Distance 5 units, radius 3: threshold 9 + 36 = 45 units^2 > 25, so eat.
    let mut weights = zero_weights();
    weights.feed = 8_000;
    let mut a = agent_at_origin(calm_stats(), weights);
    let p = Pellet {
        x: 5_000,
        y: 0,
        radius: PELLET_RADIUS,
        effect: Effect::Feed(InstantEffect { change: 64 }),
    };
    let uneaten = a.eval_consumable(&p, 7);
    assert!(!uneaten);
    assert_eq!(a.effects.len(), 1);
    assert_eq!(a.effects[0], (Effect::Feed(InstantEffect { change: 64 }), 7));
    assert_eq!((a.xv, a.yv), (0, 0));
}

#[test]
fn steering_adds_inverse_square_force() {
    // Distance 10 units, radius 1: threshold 1 + 36 = 37 units^2 < 100, so
    // steer: xv gains 8 * 10 / 100 = 0.8 units (800 milli-units), and the
    // effects queue is untouched.
    let mut weights = zero_weights();
    weights.feed = 8_000;
    let mut a = agent_at_origin(calm_stats(), weights);
    let p = Pellet {
        x: 10_000,
        y: 0,
        radius: 1_000,
        effect: Effect::Feed(InstantEffect { change: 64 }),
    };
    let uneaten = a.eval_consumable(&p, 0);
    assert!(uneaten);
    assert_eq!(a.effects.len(), 0);
    assert_eq!(a.xv, 800);
    assert_eq!(a.yv, 0);
}

#[test]
fn steering_repels_on_negative_weight() {
    let mut weights = zero_weights();
    weights.poison = -10_000;
    let mut a = agent_at_origin(calm_stats(), weights);
    let p = Pellet {
        x: 10_000,
        y: 0,
        radius: 1_000,
        effect: Effect::Poison(IntervalEffect { change: -10, tick_interval: 3, duration: 60 }),
    };
    assert!(a.eval_consumable(&p, 0));
    assert_eq!(a.xv, -1_000);
}

#[test]
fn slow_down_weight_is_negated() {
    // A positive slow_down weight produces attraction-sign inversion: the
    // resolved coefficient is its negation.
    let mut weights = zero_weights();
    weights.slow_down = 4_000;
    let mut a = agent_at_origin(calm_stats(), weights);
    let p = Pellet {
        x: 10_000,
        y: 0,
        radius: 1_000,
        effect: Effect::SlowDown(DurationEffect { change: -2_000, duration: 180 }),
    };
    assert!(a.eval_consumable(&p, 0));
    assert_eq!(a.xv, -400);
}

#[test]
fn heal_fires_once_on_queued_tick_then_disappears() {
    // Health 10, maximum 100, Heal(+25) queued at tick 5: at tick 5 health
    // becomes 35 and the entry is gone at tick 6.
    let stats = Stats { hp: 100, food: 100, speed: 10_000, tick_hunger: 0, starving_pain: 0 };
    let mut a = agent_at_origin(stats, zero_weights());
    a.hp = 10;
    let p = Pellet {
        x: 0,
        y: 0,
        radius: PELLET_RADIUS,
        effect: Effect::Heal(InstantEffect { change: 25 }),
    };
    assert!(!a.eval_consumable(&p, 5));
    let alive = a.run_tick(5, &arena());
    assert!(alive);
    assert_eq!(a.hp, 35);
    assert_eq!(a.effects.len(), 0);
    let alive6 = a.run_tick(6, &arena());
    assert!(alive6);
    assert_eq!(a.hp, 35);
}

#[test]
fn heal_overshoot_is_clamped_to_base_max() {
    let mut a = agent_at_origin(calm_stats(), zero_weights());
    a.hp = 90;
    let p = Pellet {
        x: 0,
        y: 0,
        radius: PELLET_RADIUS,
        effect: Effect::Heal(InstantEffect { change: 25 }),
    };
    assert!(!a.eval_consumable(&p, 0));
    assert!(a.run_tick(0, &arena()));
    assert_eq!(a.hp, 100);
}

#[test]
fn feed_fires_once_and_is_clamped() {
    let mut a = agent_at_origin(calm_stats(), zero_weights());
    a.food = 50;
    let p = Pellet {
        x: 0,
        y: 0,
        radius: PELLET_RADIUS,
        effect: Effect::Feed(InstantEffect { change: 64 }),
    };
    assert!(!a.eval_consumable(&p, 0));
    assert!(a.run_tick(0, &arena()));
    assert_eq!(a.food, 100);
    assert_eq!(a.effects.len(), 0);
}

#[test]
fn poison_fires_on_interval_and_expires() {
    let stats = Stats { hp: 255, food: 255, speed: 10_000, tick_hunger: 0, starving_pain: 0 };
    let mut a = agent_at_origin(stats, zero_weights());
    let p = Pellet {
        x: 0,
        y: 0,
        radius: PELLET_RADIUS,
        effect: Effect::Poison(IntervalEffect { change: -10, tick_interval: 3, duration: 7 }),
    };
    assert!(!a.eval_consumable(&p, 0));
    // tick 0: (0 - 0) % 3 == 0, fires.
    assert!(a.run_tick(0, &arena()));
    assert_eq!(a.hp, 245);
    assert_eq!(a.color, AgentColor::Purple);
    // ticks 1, 2: no fire.
    assert!(a.run_tick(1, &arena()));
    assert!(a.run_tick(2, &arena()));
    assert_eq!(a.hp, 245);
    // tick 3: fires.
    assert!(a.run_tick(3, &arena()));
    assert_eq!(a.hp, 235);
    // ticks 4, 5: no fire; tick 6: fires.
    assert!(a.run_tick(4, &arena()));
    assert!(a.run_tick(5, &arena()));
    assert!(a.run_tick(6, &arena()));
    assert_eq!(a.hp, 225);
    // tick 7: expired — removed without firing, even though 7 - 0 is not a
    // multiple of 3 away from firing again at tick 9.
    assert!(a.run_tick(7, &arena()));
    assert_eq!(a.hp, 225);
    assert_eq!(a.effects.len(), 0);
    assert_eq!(a.color, AgentColor::White);
    // tick 9 would have fired had the entry survived.
    assert!(a.run_tick(9, &arena()));
    assert_eq!(a.hp, 225);
}

#[test]
fn speed_up_applies_then_reverses_to_zero_net() {
    let mut a = agent_at_origin(calm_stats(), zero_weights());
    let p = Pellet {
        x: 0,
        y: 0,
        radius: PELLET_RADIUS,
        effect: Effect::SpeedUp(DurationEffect { change: 2_000, duration: 4 }),
    };
    assert!(!a.eval_consumable(&p, 10));
    assert!(a.run_tick(10, &arena()));
    assert_eq!(a.stats.speed, 12_000);
    assert_eq!(a.effects.len(), 1);
    assert!(a.run_tick(11, &arena()));
    assert_eq!(a.stats.speed, 12_000);
    // tick 14: 14 - 10 >= 4, reversed and removed.
    assert!(a.run_tick(14, &arena()));
    assert_eq!(a.stats.speed, 10_000);
    assert_eq!(a.effects.len(), 0);
    assert_eq!(a.base_stats.speed, 10_000);
}

#[test]
fn slow_down_applies_then_reverses_to_zero_net() {
    let mut a = agent_at_origin(calm_stats(), zero_weights());
    let p = Pellet {
        x: 0,
        y: 0,
        radius: PELLET_RADIUS,
        effect: Effect::SlowDown(DurationEffect { change: -2_000, duration: 4 }),
    };
    assert!(!a.eval_consumable(&p, 0));
    assert!(a.run_tick(0, &arena()));
    assert_eq!(a.stats.speed, 8_000);
    assert!(a.run_tick(4, &arena()));
    assert_eq!(a.stats.speed, 10_000);
    assert_eq!(a.effects.len(), 0);
}

#[test]
fn nothing_effect_is_consumed_but_inert() {
    let mut a = agent_at_origin(calm_stats(), zero_weights());
    let p = Pellet { x: 0, y: 0, radius: PELLET_RADIUS, effect: Effect::Nothing };
    assert!(!a.eval_consumable(&p, 0));
    assert_eq!(a.effects.len(), 1);
    let hp0 = a.hp;
    let food0 = a.food;
    assert!(a.run_tick(0, &arena()));
    assert_eq!(a.effects.len(), 0);
    assert_eq!((a.hp, a.food), (hp0, food0));
}

#[test]
fn starvation_damage_kills_at_zero_food() {
    // Health 5, starving pain 10, food 0: after metabolism health is 5 - 10
    // (saturating), and the death check reports not-alive.
    let stats = Stats { hp: 5, food: 0, speed: 10_000, tick_hunger: 1, starving_pain: 10 };
    let mut a = agent_at_origin(stats, zero_weights());
    assert_eq!((a.hp, a.food), (5, 0));
    let alive = a.run_tick(0, &arena());
    assert!(!alive);
    assert_eq!(a.hp, -5);
    assert_eq!(a.food, 0);
}

#[test]
fn food_drain_saturates_at_zero() {
    let stats = Stats { hp: 100, food: 3, speed: 10_000, tick_hunger: 5, starving_pain: 1 };
    let mut a = agent_at_origin(stats, zero_weights());
    assert!(a.run_tick(0, &arena()));
    assert_eq!(a.food, 0);
    assert_eq!(a.hp, 99);
    assert!(a.run_tick(1, &arena()));
    assert_eq!(a.food, 0);
    assert_eq!(a.hp, 98);
}

#[test]
fn broken_velocity_reports_dead_with_no_other_mutation() {
    // The integer analogue of a non-finite velocity: the overflow flag set
    // before the tick reports not-alive immediately, with nothing mutated.
    let mut a = agent_at_origin(calm_stats(), zero_weights());
    a.xv = 123;
    a.yv = -7;
    a.vel_overflow = true;
    let alive = a.run_tick(0, &arena());
    assert!(!alive);
    assert_eq!((a.x, a.y, a.xv, a.yv), (0, 0, 123, -7));
    assert_eq!((a.hp, a.food), (100, 100));
    assert_eq!(a.effects.len(), 0);
}

#[test]
fn velocity_is_rescaled_exactly_to_the_cap() {
    let stats = Stats { hp: 100, food: 100, speed: 5_000, tick_hunger: 0, starving_pain: 0 };
    let mut a = agent_at_origin(stats, zero_weights());
    a.xv = 30_000;
    a.yv = 40_000;
    // magnitude 50 units against a 5-unit cap: scaled by 5/50.
    assert!(a.run_tick(0, &arena()));
    assert_eq!((a.xv, a.yv), (3_000, 4_000));
    assert_eq!((a.x, a.y), (3_000, 4_000));
}

#[test]
fn velocity_below_cap_is_untouched() {
    let mut a = agent_at_origin(calm_stats(), zero_weights());
    a.xv = 6_000;
    a.yv = 8_000;
    // magnitude 10 units, cap 10 units: exactly at the cap, no rescale.
    assert!(a.run_tick(0, &arena()));
    assert_eq!((a.xv, a.yv), (6_000, 8_000));
}

#[test]
fn negative_working_speed_zeroes_velocity() {
    let stats = Stats { hp: 100, food: 100, speed: 1_000, tick_hunger: 0, starving_pain: 0 };
    let mut a = agent_at_origin(stats, zero_weights());
    a.xv = 500;
    let p1 = Pellet {
        x: 0,
        y: 0,
        radius: PELLET_RADIUS,
        effect: Effect::SlowDown(DurationEffect { change: -2_000, duration: 180 }),
    };
    assert!(!a.eval_consumable(&p1, 0));
    assert!(a.run_tick(0, &arena()));
    assert_eq!(a.stats.speed, -1_000);
    assert_eq!((a.xv, a.yv), (0, 0));
}

#[test]
fn leaving_bounds_is_fatal() {
    let mut a = agent_at_origin(calm_stats(), zero_weights());
    a.x = 99_000;
    a.xv = 2_000;
    let alive = a.run_tick(0, &arena());
    assert!(!alive);
    assert_eq!(a.x, 101_000);
}

#[test]
fn can_reproduce_thresholds_are_strict() {
    let stats = Stats { hp: 100, food: 100, speed: 10_000, tick_hunger: 1, starving_pain: 1 };
    let mut a = agent_at_origin(stats, zero_weights());
    a.food = 67;
    a.hp = 34;
    assert!(!a.can_reproduce()); // 6700 > 6700 is false
    a.food = 68;
    a.hp = 33;
    assert!(!a.can_reproduce()); // 3300 > 3300 is false
    a.hp = 34;
    assert!(a.can_reproduce()); // 6800 > 6700 and 3400 > 3300
}

#[test]
fn reproduce_leaves_parent_untouched_and_resets_child() {
    let stats = Stats { hp: 200, food: 150, speed: 9_000, tick_hunger: 2, starving_pain: 3 };
    let mut weights = zero_weights();
    weights.poison = -4_000;
    weights.heal = 2_500;
    let mut a = agent_at_origin(stats, weights);
    a.hp = 180;
    a.food = 140;
    let p = Pellet {
        x: 0,
        y: 0,
        radius: PELLET_RADIUS,
        effect: Effect::Heal(InstantEffect { change: 25 }),
    };
    assert!(!a.eval_consumable(&p, 0));
    let bounds = arena();
    let child = a.reproduce(&bounds);
    // The parent's weights, health and food are unchanged, its queue intact.
    assert_eq!(a.weights, weights);
    assert_eq!((a.hp, a.food), (180, 140));
    assert_eq!(a.effects.len(), 1);
    // The child starts fresh from the parent's base stats.
    assert_eq!(child.base_stats, stats);
    assert_eq!(child.stats, stats);
    assert_eq!((child.hp, child.food), (200, 150));
    assert_eq!((child.xv, child.yv), (0, 0));
    assert_eq!(child.effects.len(), 0);
    assert_eq!(child.color, AgentColor::White);
    assert!(bounds.left <= child.x && child.x <= bounds.right);
    assert!(bounds.bottom <= child.y && child.y <= bounds.top);
    // Each coefficient moved by at most 5 units.
    assert!((child.weights.poison - a.weights.poison).abs() <= 5_000);
    assert!((child.weights.heal - a.weights.heal).abs() <= 5_000);
    assert!((child.weights.feed - a.weights.feed).abs() <= 5_000);
    assert!((child.weights.slow_down - a.weights.slow_down).abs() <= 5_000);
    assert!((child.weights.speed_up - a.weights.speed_up).abs() <= 5_000);
}
