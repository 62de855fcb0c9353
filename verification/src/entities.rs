//! The simulated entities: world bounds, stat bundles, heritable weights,
//! pellets, and agents.
//!
//! All spatial quantities are fixed-point integers in milli-units
//! (thousandths of a world unit): positions, velocities, speeds, radii and
//! steering weights. Health and food are whole points, as `i32`.

use vstd::prelude::*;
use crate::effects::Effect;
use crate::effects::IntervalEffect;
use crate::effects::InstantEffect;
use crate::effects::DurationEffect;
use crate::effects::effect_wf;
use crate::num::lerp_u32;
use crate::num::lerp_u8;

verus! {

/// Coordinates are kept within this magnitude so that squared distances of
/// any two in-range points fit in 128 bits.
pub const COORD_LIMIT: i64 = 0x3FFF_FFFF_FFFF_FFFF;

/// Steering weights are kept within this magnitude so that steering forces
/// fit in 128 bits; it is far beyond the ranges that initialization and
/// mutation ever reach in practice.
pub const WEIGHT_LIMIT: i64 = 0x100_0000_0000;

/// Every pellet has this fixed radius: 3 world units.
pub const PELLET_RADIUS: i64 = 3000;

/// The capture slack added to the pellet's own squared radius in the eat
/// test: 36 world units squared, in milli-units squared.
pub const EAT_MARGIN_SQ: u128 = 36_000_000;

/// The display hint of an agent, excluded from core reasoning.
#[derive(Copy, Clone, Debug, PartialEq, Eq, Structural)]
pub enum AgentColor {
    /// A seeded agent.
    Wheat,
    /// An offspring, or an agent whose poisoning has expired.
    White,
    /// A currently poisoned agent.
    Purple,
}

/// An agent's stat bundle: maxima, speed cap, and metabolic rates.
///
/// An agent holds two copies: `base_stats`, immutable and inherited unchanged
/// at reproduction, and `stats`, the working copy whose `speed` temporary
/// effects perturb.
#[derive(Copy, Clone, Debug, PartialEq, Eq, Structural)]
pub struct Stats {
    /// Maximum (and starting) health, in points.
    pub hp: i32,
    /// Maximum (and starting) food, in points.
    pub food: i32,
    /// Speed cap, in milli-units per tick.
    pub speed: i64,
    /// Food drained per tick.
    pub tick_hunger: u16,
    /// Health drained per tick while starving.
    pub starving_pain: u16,
}

/// An agent's learned response coefficients to each effect category, in
/// milli-units. Positive means attraction, negative repulsion; `slow_down`
/// is negated before use (a deliberate sign flip).
#[derive(Copy, Clone, Debug, PartialEq, Eq, Structural)]
pub struct Weights {
    pub poison: i64,
    pub heal: i64,
    pub feed: i64,
    pub slow_down: i64,
    pub speed_up: i64,
}

/// Clamp a coefficient to the representable steering range.
pub open spec fn clamp_weight(x: int) -> int {
    if x > WEIGHT_LIMIT {
        WEIGHT_LIMIT as int
    } else if x < -WEIGHT_LIMIT {
        -WEIGHT_LIMIT as int
    } else {
        x
    }
}

impl Weights {
    /// All coefficients within the representable steering range.
    pub open spec fn wf(&self) -> bool {
        &&& -WEIGHT_LIMIT <= self.poison <= WEIGHT_LIMIT
        &&& -WEIGHT_LIMIT <= self.heal <= WEIGHT_LIMIT
        &&& -WEIGHT_LIMIT <= self.feed <= WEIGHT_LIMIT
        &&& -WEIGHT_LIMIT <= self.slow_down <= WEIGHT_LIMIT
        &&& -WEIGHT_LIMIT <= self.speed_up <= WEIGHT_LIMIT
    }

    /// Draws each coefficient independently and uniformly from its fixed
    /// per-category range. The ranges are a deliberate bias: poison skewed
    /// negative (aversion by default), heal skewed positive (attraction by
    /// default).
    pub fn random() -> (w: Weights)
        ensures
            w.wf(),
            -10_000 <= w.poison <= 5_000,
            -5_000 <= w.heal <= 10_000,
            -8_000 <= w.feed <= 8_000,
            -5_000 <= w.slow_down <= 5_000,
            -5_000 <= w.speed_up <= 5_000,
    {
        Weights {
            poison: lerp_u32(-10_000, 5_000, rand::random::<u32>()),
            heal: lerp_u32(-5_000, 10_000, rand::random::<u32>()),
            feed: lerp_u32(-8_000, 8_000, rand::random::<u32>()),
            slow_down: lerp_u32(-5_000, 5_000, rand::random::<u32>()),
            speed_up: lerp_u32(-5_000, 5_000, rand::random::<u32>()),
        }
    }

    /// Used only at reproduction: each coefficient of the parent is
    /// perturbed by an independent uniform offset from `[-5, +5]` world
    /// units, clamped only at the representable steering range.
    pub fn mutate(&self) -> (m: Weights)
        requires
            self.wf(),
        ensures
            m.wf(),
            clamp_weight(self.poison - 5_000) <= m.poison <= clamp_weight(self.poison + 5_000),
            clamp_weight(self.heal - 5_000) <= m.heal <= clamp_weight(self.heal + 5_000),
            clamp_weight(self.feed - 5_000) <= m.feed <= clamp_weight(self.feed + 5_000),
            clamp_weight(self.slow_down - 5_000) <= m.slow_down <= clamp_weight(
                self.slow_down + 5_000,
            ),
            clamp_weight(self.speed_up - 5_000) <= m.speed_up <= clamp_weight(
                self.speed_up + 5_000,
            ),
    {
        Weights {
            poison: mutate_one(self.poison),
            heal: mutate_one(self.heal),
            feed: mutate_one(self.feed),
            slow_down: mutate_one(self.slow_down),
            speed_up: mutate_one(self.speed_up),
        }
    }
}

/// One coefficient perturbed by a uniform offset from `[-5, +5]` world units.
fn mutate_one(w: i64) -> (m: i64)
    requires
        -WEIGHT_LIMIT <= w <= WEIGHT_LIMIT,
    ensures
        clamp_weight(w - 5_000) <= m <= clamp_weight(w + 5_000),
        -WEIGHT_LIMIT <= m <= WEIGHT_LIMIT,
{
    let off = lerp_u32(-5_000, 5_000, rand::random::<u32>());
    let v = w + off;
    if v > WEIGHT_LIMIT {
        WEIGHT_LIMIT
    } else if v < -WEIGHT_LIMIT {
        -WEIGHT_LIMIT
    } else {
        v
    }
}

/// The axis-aligned rectangle defining the live simulation area, in
/// milli-units. Agents leaving it die.
#[derive(Copy, Clone, Debug, PartialEq, Eq, Structural)]
pub struct Bounds {
    pub left: i64,
    pub right: i64,
    pub bottom: i64,
    pub top: i64,
}

impl Bounds {
    /// Non-degenerate and within the representable coordinate range.
    pub open spec fn wf(&self) -> bool {
        &&& -COORD_LIMIT <= self.left <= self.right <= COORD_LIMIT
        &&& -COORD_LIMIT <= self.bottom <= self.top <= COORD_LIMIT
    }

    /// The point lies inside the rectangle (inclusive edges).
    pub open spec fn contains(&self, x: int, y: int) -> bool {
        self.left <= x <= self.right && self.bottom <= y <= self.top
    }
}

/// Squared Euclidean distance between two points, in milli-units squared.
pub open spec fn dist_sq(ax: int, ay: int, bx: int, by: int) -> int {
    (bx - ax) * (bx - ax) + (by - ay) * (by - ay)
}

/// A static, consumable point with a radius and an effect.
pub struct Pellet {
    /// Position, in milli-units.
    pub x: i64,
    pub y: i64,
    /// Radius, in milli-units.
    pub radius: i64,
    pub effect: Effect,
}

/// The weighted-bucket rule mapping a uniformly drawn byte to one of five
/// default effects (bucket sizes 52/52/51/51/50 of 256).
pub open spec fn default_effect(b: u8) -> Effect {
    if b <= 51 {
        Effect::Poison(IntervalEffect { change: -10i32, tick_interval: 3u8, duration: 60u16 })
    } else if b <= 103 {
        Effect::Heal(InstantEffect { change: 25i32 })
    } else if b <= 154 {
        Effect::Feed(InstantEffect { change: 64i32 })
    } else if b <= 205 {
        Effect::SpeedUp(DurationEffect { change: 2_000i64, duration: 180u16 })
    } else {
        Effect::SlowDown(DurationEffect { change: -2_000i64, duration: 180u16 })
    }
}

/// Some byte maps to this effect under the weighted-bucket rule.
pub open spec fn is_default_effect(e: Effect) -> bool {
    exists|b: u8| default_effect(b) == e
}

/// The weighted-bucket rule, executed.
pub fn effect_for_byte(b: u8) -> (e: Effect)
    ensures
        e == default_effect(b),
{
    if b <= 51 {
        Effect::Poison(IntervalEffect { change: -10, tick_interval: 3, duration: 60 })
    } else if b <= 103 {
        Effect::Heal(InstantEffect { change: 25 })
    } else if b <= 154 {
        Effect::Feed(InstantEffect { change: 64 })
    } else if b <= 205 {
        Effect::SpeedUp(DurationEffect { change: 2_000, duration: 180 })
    } else {
        Effect::SlowDown(DurationEffect { change: -2_000, duration: 180 })
    }
}

impl Pellet {
    /// In range, and carrying a well-formed effect.
    pub open spec fn wf(&self) -> bool {
        &&& -COORD_LIMIT <= self.x <= COORD_LIMIT
        &&& -COORD_LIMIT <= self.y <= COORD_LIMIT
        &&& 0 <= self.radius <= COORD_LIMIT
        &&& effect_wf(self.effect)
    }

    /// Places the pellet at a position drawn independently and uniformly
    /// within `bounds` on each axis; if no effect is supplied, draws one per
    /// the weighted-bucket rule.
    pub fn new(bounds: &Bounds, effect: Option<Effect>) -> (p: Pellet)
        requires
            bounds.wf(),
            effect is Some ==> effect_wf(effect->0),
        ensures
            p.wf(),
            bounds.contains(p.x as int, p.y as int),
            p.radius == PELLET_RADIUS,
            match effect {
                Option::Some(e) => p.effect == e,
                Option::None => is_default_effect(p.effect),
            },
    {
        let e = match effect {
            Option::Some(e) => e,
            Option::None => {
                let b = rand::random::<u8>();
                let de = effect_for_byte(b);
                proof {
                    assert(is_default_effect(de)) by {
                        assert(default_effect(b) == de);
                    }
                }
                de
            },
        };
        Pellet {
            x: lerp_u32(bounds.left, bounds.right, rand::random::<u32>()),
            y: lerp_u32(bounds.bottom, bounds.top, rand::random::<u32>()),
            radius: PELLET_RADIUS,
            effect: e,
        }
    }

    /// The pellet's position.
    pub fn x_y(&self) -> (r: (i64, i64))
        ensures
            r == (self.x, self.y),
    {
        (self.x, self.y)
    }

    /// The pellet's radius, in milli-units.
    pub fn radius(&self) -> (r: i64)
        ensures
            r == self.radius,
    {
        self.radius
    }

    /// The pellet's effect.
    pub fn effect(&self) -> (r: Effect)
        ensures
            r == self.effect,
    {
        self.effect
    }
}

/// The mathematical value of a stat bundle.
#[verifier::ext_equal]
pub ghost struct StatsV {
    pub hp: int,
    pub food: int,
    pub speed: int,
    pub tick_hunger: int,
    pub starving_pain: int,
}

impl View for Stats {
    type V = StatsV;

    open spec fn view(&self) -> StatsV {
        StatsV {
            hp: self.hp as int,
            food: self.food as int,
            speed: self.speed as int,
            tick_hunger: self.tick_hunger as int,
            starving_pain: self.starving_pain as int,
        }
    }
}

/// The mathematical value of an agent.
#[verifier::ext_equal]
pub ghost struct AgentV {
    pub x: int,
    pub y: int,
    pub xv: int,
    pub yv: int,
    /// Whether steering accumulation has left the representable velocity
    /// range; such an agent is reported dead on its next tick.
    pub vel_overflow: bool,
    pub hp: int,
    pub food: int,
    pub base_stats: StatsV,
    pub stats: StatsV,
    pub weights: Weights,
    pub effects: Seq<(Effect, u64)>,
    pub color: AgentColor,
}

/// The view of any actual stat bundle: every field within its machine range.
pub open spec fn stats_in_range(s: StatsV) -> bool {
    &&& i32::MIN <= s.hp <= i32::MAX
    &&& i32::MIN <= s.food <= i32::MAX
    &&& i64::MIN <= s.speed <= i64::MAX
    &&& 0 <= s.tick_hunger <= u16::MAX
    &&& 0 <= s.starving_pain <= u16::MAX
}

impl AgentV {
    /// The view of any actual agent value: every field within its machine
    /// range. Holds of `SimpleAgent::view` by construction.
    pub open spec fn in_range(&self) -> bool {
        &&& i64::MIN <= self.x <= i64::MAX
        &&& i64::MIN <= self.y <= i64::MAX
        &&& i64::MIN <= self.xv <= i64::MAX
        &&& i64::MIN <= self.yv <= i64::MAX
        &&& i32::MIN <= self.hp <= i32::MAX
        &&& i32::MIN <= self.food <= i32::MAX
        &&& stats_in_range(self.base_stats)
        &&& stats_in_range(self.stats)
    }

    /// In range, with well-formed weights.
    pub open spec fn wf(&self) -> bool {
        &&& -COORD_LIMIT <= self.x <= COORD_LIMIT
        &&& -COORD_LIMIT <= self.y <= COORD_LIMIT
        &&& self.weights.wf()
    }
}

/// A mobile entity with health, food, speed, inheritable weights, and an
/// active-effects queue.
pub struct SimpleAgent {
    /// Position, in milli-units.
    pub x: i64,
    pub y: i64,
    /// Velocity, in milli-units per tick.
    pub xv: i64,
    pub yv: i64,
    /// Whether steering accumulation has left the representable velocity
    /// range; the analogue of a non-finite velocity, fatal on the next tick.
    pub vel_overflow: bool,
    /// Current health, in points.
    pub hp: i32,
    /// Current food, in points.
    pub food: i32,
    /// Immutable maxima and rates, inherited unchanged at reproduction.
    pub base_stats: Stats,
    /// Working copy whose `speed` temporary effects perturb.
    pub stats: Stats,
    pub weights: Weights,
    /// Effects currently in flight, each tagged with the tick it was queued.
    pub effects: Vec<(Effect, u64)>,
    /// Display hint; visual only.
    pub color: AgentColor,
}

impl View for SimpleAgent {
    type V = AgentV;

    open spec fn view(&self) -> AgentV {
        AgentV {
            x: self.x as int,
            y: self.y as int,
            xv: self.xv as int,
            yv: self.yv as int,
            vel_overflow: self.vel_overflow,
            hp: self.hp as int,
            food: self.food as int,
            base_stats: self.base_stats@,
            stats: self.stats@,
            weights: self.weights,
            effects: self.effects@,
            color: self.color,
        }
    }
}

impl SimpleAgent {
    /// In range, with well-formed weights.
    pub open spec fn wf(&self) -> bool {
        self@.wf()
    }

    /// A fresh agent at `(x, y)`, at rest, with full health and food, both
    /// stat copies equal to `stats`, and no effects in flight. Absent
    /// weights are drawn at random; an absent color defaults to the seeded
    /// look.
    pub fn new(x: i64, y: i64, stats: Stats, weights: Option<Weights>, color: Option<AgentColor>)
        -> (a: SimpleAgent)
        requires
            -COORD_LIMIT <= x <= COORD_LIMIT,
            -COORD_LIMIT <= y <= COORD_LIMIT,
            weights is Some ==> weights->0.wf(),
        ensures
            a.wf(),
            a@.x == x && a@.y == y,
            a@.xv == 0 && a@.yv == 0 && !a@.vel_overflow,
            a@.hp == stats.hp && a@.food == stats.food,
            a@.base_stats == stats@ && a@.stats == stats@,
            a@.effects == Seq::<(Effect, u64)>::empty(),
            match weights {
                Option::Some(w) => a@.weights == w,
                Option::None => {
                    &&& -10_000 <= a@.weights.poison <= 5_000
                    &&& -5_000 <= a@.weights.heal <= 10_000
                    &&& -8_000 <= a@.weights.feed <= 8_000
                    &&& -5_000 <= a@.weights.slow_down <= 5_000
                    &&& -5_000 <= a@.weights.speed_up <= 5_000
                },
            },
            match color {
                Option::Some(c) => a@.color == c,
                Option::None => a@.color == AgentColor::Wheat,
            },
    {
        let w = match weights {
            Option::Some(w) => w,
            Option::None => Weights::random(),
        };
        let c = match color {
            Option::Some(c) => c,
            Option::None => AgentColor::Wheat,
        };
        let a = SimpleAgent {
            x,
            y,
            xv: 0,
            yv: 0,
            vel_overflow: false,
            hp: stats.hp,
            food: stats.food,
            base_stats: stats,
            stats,
            weights: w,
            effects: Vec::new(),
            color: c,
        };
        proof {
            assert(a@.effects =~= Seq::<(Effect, u64)>::empty());
        }
        a
    }

    /// The agent's position.
    pub fn x_y(&self) -> (r: (i64, i64))
        ensures
            r == (self.x, self.y),
    {
        (self.x, self.y)
    }

    /// True iff current food exceeds 67% of the base maximum food and
    /// current health exceeds 33% of the base maximum health. Pure.
    pub fn can_reproduce(&self) -> (r: bool)
        ensures
            r == (self.food * 100 > self.base_stats.food * 67 && self.hp * 100
                > self.base_stats.hp * 33),
    {
        let food_ok = (self.food as i64) * 100 > (self.base_stats.food as i64) * 67;
        let hp_ok = (self.hp as i64) * 100 > (self.base_stats.hp as i64) * 33;
        food_ok && hp_ok
    }

    /// A new agent with a freshly randomized position within `bounds`, the
    /// parent's base stats copied unchanged (health and food reset to those
    /// maxima), the parent's weights mutated, an empty effects queue, and
    /// the offspring display marker. The parent is untouched (shared
    /// borrow), and pays no cost.
    pub fn reproduce(&self, bounds: &Bounds) -> (child: SimpleAgent)
        requires
            self.weights.wf(),
            bounds.wf(),
        ensures
            child.wf(),
            bounds.contains(child@.x, child@.y),
            child@.xv == 0 && child@.yv == 0 && !child@.vel_overflow,
            child@.base_stats == self@.base_stats,
            child@.stats == self@.base_stats,
            child@.hp == self@.base_stats.hp,
            child@.food == self@.base_stats.food,
            child@.effects == Seq::<(Effect, u64)>::empty(),
            child@.color == AgentColor::White,
            clamp_weight(self@.weights.poison - 5_000) <= child@.weights.poison <= clamp_weight(
                self@.weights.poison + 5_000,
            ),
            clamp_weight(self@.weights.heal - 5_000) <= child@.weights.heal <= clamp_weight(
                self@.weights.heal + 5_000,
            ),
            clamp_weight(self@.weights.feed - 5_000) <= child@.weights.feed <= clamp_weight(
                self@.weights.feed + 5_000,
            ),
            clamp_weight(self@.weights.slow_down - 5_000) <= child@.weights.slow_down
                <= clamp_weight(self@.weights.slow_down + 5_000),
            clamp_weight(self@.weights.speed_up - 5_000) <= child@.weights.speed_up
                <= clamp_weight(self@.weights.speed_up + 5_000),
    {
        let weights = self.weights.mutate();
        let cx = lerp_u8(bounds.left, bounds.right, rand::random::<u8>());
        let cy = lerp_u8(bounds.bottom, bounds.top, rand::random::<u8>());
        SimpleAgent::new(
            cx,
            cy,
            self.base_stats,
            Option::Some(weights),
            Option::Some(AgentColor::White),
        )
    }
}

} // verus!
