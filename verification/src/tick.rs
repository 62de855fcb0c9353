//! The agent's per-tick behavior: weighted consumption evaluation and the
//! ordered per-tick state update.

use vstd::prelude::*;
use crate::effects::Effect;
use crate::effects::Phys;
use crate::effects::effects_ok;
use crate::effects::effects_fold;
use crate::effects::entry_step;
use crate::effects::lemma_no_instants_retained;
use crate::entities::AgentColor;
use crate::entities::AgentV;
use crate::entities::Bounds;
use crate::entities::COORD_LIMIT;
use crate::entities::EAT_MARGIN_SQ;
use crate::entities::Pellet;
use crate::entities::SimpleAgent;
use crate::entities::StatsV;
use crate::entities::WEIGHT_LIMIT;
use crate::entities::Weights;
use crate::entities::dist_sq;
use crate::num::isqrt_up;
use crate::num::lemma_sqrt_up_unique;
use crate::num::lemma_sqrt_up_exists;
use crate::num::sqrt_up_val;
use crate::num::sat_add_i32;
use crate::num::sat_add_i64;
use crate::num::sat_add_i64_spec;
use crate::num::sat_sub_i32;
use crate::num::sat_sub_i32_spec;
use crate::num::sat_sub_i64;

verus! {

/// The signed steering coefficient an agent resolves for a pellet's effect
/// category. `SlowDown` is negated — the one deliberate sign flip — and
/// `Nothing` contributes zero.
pub open spec fn effect_weight(w: Weights, e: Effect) -> int {
    match e {
        Effect::Nothing => 0,
        Effect::Poison(_) => w.poison as int,
        Effect::Heal(_) => w.heal as int,
        Effect::Feed(_) => w.feed as int,
        Effect::SlowDown(_) => -(w.slow_down as int),
        Effect::SpeedUp(_) => w.speed_up as int,
    }
}

/// The eat test: squared distance strictly under the pellet's squared radius
/// plus the fixed capture slack.
pub open spec fn eat_test(a: AgentV, p: Pellet) -> bool {
    dist_sq(a.x, a.y, p.x as int, p.y as int) < p.radius * p.radius + EAT_MARGIN_SQ
}

/// One axis of the inverse-square steering perturbation: the velocity
/// component gains `w * d * 1000 / d2` (truncated toward zero), unless that
/// delta or the sum leaves the representable range, in which case the
/// component is unchanged and the overflow flag is reported — the analogue
/// of a velocity going non-finite.
pub open spec fn steer_axis(v: int, w: int, d: int, d2: int) -> (int, bool)
    recommends
        d2 > 0,
{
    let n = w * d * 1000;
    let q = (if n >= 0 {
        n
    } else {
        -n
    }) / d2;
    if q > i64::MAX {
        (v, true)
    } else {
        let dv = if n >= 0 {
            q
        } else {
            -q
        };
        if i64::MIN <= v + dv <= i64::MAX {
            (v + dv, false)
        } else {
            (v, true)
        }
    }
}

/// What one consumption evaluation does to the agent: either the pellet is
/// eaten (its effect queued, velocity untouched), or the agent steers (its
/// velocity perturbed, queue untouched).
pub open spec fn eval_spec(a: AgentV, p: Pellet, tick: u64) -> AgentV {
    if eat_test(a, p) {
        AgentV { effects: a.effects.push((p.effect, tick)), ..a }
    } else {
        let w = effect_weight(a.weights, p.effect);
        let d2 = dist_sq(a.x, a.y, p.x as int, p.y as int);
        let (xv2, ox) = steer_axis(a.xv, w, p.x - a.x, d2);
        let (yv2, oy) = steer_axis(a.yv, w, p.y - a.y, d2);
        AgentV { xv: xv2, yv: yv2, vel_overflow: a.vel_overflow || ox || oy, ..a }
    }
}

/// One axis of the proportional velocity rescale: `v * s / m`, truncated
/// toward zero.
pub open spec fn scale_vel(v: int, s: int, m: int) -> int
    recommends
        m >= 1,
{
    let n = v * s;
    if n >= 0 {
        n / m
    } else {
        -((-n) / m)
    }
}

/// Speed-cap enforcement: a negative working cap zeroes the velocity; a
/// magnitude above the cap is rescaled proportionally; otherwise the
/// velocity stands.
pub open spec fn capped_velocity(xv: int, yv: int, speed: int) -> (int, int) {
    let mag2 = xv * xv + yv * yv;
    if speed < 0 {
        (0, 0)
    } else if mag2 > speed * speed {
        let m = sqrt_up_val(mag2);
        (scale_vel(xv, speed, m), scale_vel(yv, speed, m))
    } else {
        (xv, yv)
    }
}

/// The ordered per-tick contract, as one mathematical function: the agent's
/// state after the tick, and whether it is still alive.
///
/// In order: the non-finite-velocity guard; effect resolution; clamping of
/// health and food down to the base maxima; speed-cap enforcement;
/// metabolism (food drain saturating at zero, then starvation damage);
/// the death check; movement; the bounds check.
pub open spec fn run_tick_spec(a: AgentV, tick: u64, b: Bounds) -> (AgentV, bool) {
    if a.vel_overflow {
        (a, false)
    } else {
        let p0 = Phys { hp: a.hp, food: a.food, speed: a.stats.speed, color: a.color };
        let (p1, kept) = effects_fold(p0, a.effects, tick);
        let hp2 = if p1.hp > a.base_stats.hp {
            a.base_stats.hp
        } else {
            p1.hp
        };
        let food2 = if p1.food > a.base_stats.food {
            a.base_stats.food
        } else {
            p1.food
        };
        let (xv2, yv2) = capped_velocity(a.xv, a.yv, p1.speed);
        let food3 = if food2 - a.stats.tick_hunger <= 0 {
            0
        } else {
            food2 - a.stats.tick_hunger
        };
        let hp3 = if food3 <= 0 {
            sat_sub_i32_spec(hp2, a.stats.starving_pain)
        } else {
            hp2
        };
        let mid = AgentV {
            xv: xv2,
            yv: yv2,
            hp: hp3,
            food: food3,
            stats: StatsV { speed: p1.speed, ..a.stats },
            effects: kept,
            color: p1.color,
            ..a
        };
        if hp3 <= 0 {
            (mid, false)
        } else {
            let x2 = sat_add_i64_spec(a.x, xv2);
            let y2 = sat_add_i64_spec(a.y, yv2);
            (AgentV { x: x2, y: y2, ..mid }, b.contains(x2, y2))
        }
    }
}

/// One axis of the steering perturbation, executed.
fn steer_axis_exec(v: i64, w: i64, d: i64, d2: u128) -> (r: (i64, bool))
    requires
        -WEIGHT_LIMIT <= w <= WEIGHT_LIMIT,
        d2 > 0,
    ensures
        (r.0 as int, r.1) == steer_axis(v as int, w as int, d as int, d2 as int),
{
    proof {
        assert(-0x8000_0000_0000_0000_0000_0000_0000 <= (w as int) * (d as int)
            <= 0x8000_0000_0000_0000_0000_0000_0000) by (nonlinear_arith)
            requires
                -WEIGHT_LIMIT <= w <= WEIGHT_LIMIT,
                -0x8000_0000_0000_0000 <= d <= 0x8000_0000_0000_0000,
        ;
    }
    let wd: i128 = (w as i128) * (d as i128);
    let n: i128 = wd * 1000;
    let na: u128 = if n < 0 {
        (-n) as u128
    } else {
        n as u128
    };
    let q: u128 = na / d2;
    if q > i64::MAX as u128 {
        (v, true)
    } else {
        let dv: i64 = if n < 0 {
            -(q as i64)
        } else {
            q as i64
        };
        match v.checked_add(dv) {
            Option::Some(v2) => (v2, false),
            Option::None => (v, true),
        }
    }
}

/// One axis of the proportional rescale, executed.
fn scale_vel_exec(v: i64, s: i64, m: u128) -> (r: i64)
    requires
        0 <= s,
        1 <= m,
        (s as int) < m as int,
    ensures
        r as int == scale_vel(v as int, s as int, m as int),
{
    let neg = v < 0;
    let va: u128 = if v < 0 {
        (-(v as i128)) as u128
    } else {
        v as u128
    };
    proof {
        assert(va * (s as int) <= 0x8000_0000_0000_0000u128 * i64::MAX) by (nonlinear_arith)
            requires
                0 <= va <= 0x8000_0000_0000_0000u128,
                0 <= s <= i64::MAX,
        ;
    }
    let n: u128 = va * (s as u128);
    let q: u128 = n / m;
    proof {
        assert(n == (m as int) * ((n as int) / (m as int)) + (n as int) % (m as int)) by {
            vstd::arithmetic::div_mod::lemma_fundamental_div_mod(n as int, m as int);
        }
        assert(0 <= (n as int) % (m as int)) by {
            vstd::arithmetic::div_mod::lemma_mod_bound(n as int, m as int);
        }
        assert(q <= va) by (nonlinear_arith)
            requires
                n == va * (s as int),
                n == (m as int) * (q as int) + (n as int) % (m as int),
                0 <= (n as int) % (m as int),
                0 <= s,
                (s as int) < m as int,
                1 <= m,
                0 <= va,
        ;
        assert(va > 0 ==> q < va) by (nonlinear_arith)
            requires
                n == va * (s as int),
                n == (m as int) * (q as int) + (n as int) % (m as int),
                0 <= (n as int) % (m as int),
                0 <= s,
                (s as int) < m as int,
                1 <= m,
                0 <= va,
        ;
    }
    proof {
        assert((va as int) * (s as int) == if v >= 0 {
            (v as int) * (s as int)
        } else {
            -((v as int) * (s as int))
        }) by (nonlinear_arith)
            requires
                va == if v >= 0 { v as int } else { -(v as int) },
                0 <= s,
        ;
    }
    if neg {
        -(q as i64)
    } else {
        q as i64
    }
}

impl SimpleAgent {
    /// Squared Euclidean distance to a pellet, in milli-units squared.
    pub fn dist_sq(&self, other: &Pellet) -> (r: u128)
        requires
            self.wf(),
            other.wf(),
        ensures
            r == dist_sq(self@.x, self@.y, other.x as int, other.y as int),
    {
        let dx: i64 = other.x - self.x;
        let dy: i64 = other.y - self.y;
        proof {
            assert((dx as int) * (dx as int) <= 0x8000_0000_0000_0000 * 0x8000_0000_0000_0000
                && (dx as int) * (dx as int) >= 0) by (nonlinear_arith)
                requires
                    -0x8000_0000_0000_0000 <= dx <= 0x8000_0000_0000_0000,
            ;
            assert((dy as int) * (dy as int) <= 0x8000_0000_0000_0000 * 0x8000_0000_0000_0000
                && (dy as int) * (dy as int) >= 0) by (nonlinear_arith)
                requires
                    -0x8000_0000_0000_0000 <= dy <= 0x8000_0000_0000_0000,
            ;
        }
        let dx2: i128 = (dx as i128) * (dx as i128);
        let dy2: i128 = (dy as i128) * (dy as i128);
        (dx2 as u128) + (dy2 as u128)
    }

    /// Evaluate one live pellet for one tick: either eat it — queue its
    /// effect, tagged with the current tick, and report it consumed by
    /// returning `false` — or steer toward or away from it by an
    /// inverse-square force, and return `true` (still uneaten). Exactly one
    /// of the two happens.
    pub fn eval_consumable(&mut self, other: &Pellet, tick: u64) -> (uneaten: bool)
        requires
            old(self).wf(),
            other.wf(),
        ensures
            final(self)@ == eval_spec(old(self)@, *other, tick),
            uneaten == !eat_test(old(self)@, *other),
            final(self).wf(),
    {
        let d2 = self.dist_sq(other);
        let thr: u128 = {
            proof {
                assert((other.radius as int) * (other.radius as int) <= COORD_LIMIT * COORD_LIMIT
                    && (other.radius as int) * (other.radius as int) >= 0) by (nonlinear_arith)
                    requires
                        0 <= other.radius <= COORD_LIMIT,
                ;
            }
            (other.radius as u128) * (other.radius as u128) + EAT_MARGIN_SQ
        };
        if d2 < thr {
            self.effects.push((other.effect, tick));
            proof {
                assert(self@ =~= eval_spec(old(self)@, *other, tick));
            }
            return false;
        }
        let w: i64 = match other.effect {
            Effect::Nothing => 0,
            Effect::Poison(_) => self.weights.poison,
            Effect::Heal(_) => self.weights.heal,
            Effect::Feed(_) => self.weights.feed,
            Effect::SlowDown(_) => -self.weights.slow_down,
            Effect::SpeedUp(_) => self.weights.speed_up,
        };
        let dx: i64 = other.x - self.x;
        let dy: i64 = other.y - self.y;
        let (xv2, ox) = steer_axis_exec(self.xv, w, dx, d2);
        let (yv2, oy) = steer_axis_exec(self.yv, w, dy, d2);
        self.xv = xv2;
        self.yv = yv2;
        self.vel_overflow = self.vel_overflow || ox || oy;
        proof {
            assert(self@ =~= eval_spec(old(self)@, *other, tick));
        }
        true
    }

    /// One ordered tick of the agent's own state, returning whether it is
    /// still alive. See `run_tick_spec` for the exact transition.
    pub fn run_tick(&mut self, tick: u64, bounds: &Bounds) -> (alive: bool)
        requires
            old(self).wf(),
            effects_ok(old(self)@.effects, tick),
            bounds.wf(),
        ensures
            final(self)@ == run_tick_spec(old(self)@, tick, *bounds).0,
            alive == run_tick_spec(old(self)@, tick, *bounds).1,
            alive ==> final(self).wf(),
            effects_ok(final(self)@.effects, tick),
    {
        if self.vel_overflow {
            return false;
        }
        let ghost a0 = self@;
        let ghost full = self@.effects;
        let ghost p0 = Phys { hp: a0.hp, food: a0.food, speed: a0.stats.speed, color: a0.color };

        // Effect resolution.
        let mut hp: i32 = self.hp;
        let mut food: i32 = self.food;
        let mut speed: i64 = self.stats.speed;
        let mut color: AgentColor = self.color;
        let mut kept: Vec<(Effect, u64)> = Vec::new();
        let n = self.effects.len();
        let mut i: usize = 0;
        proof {
            assert(full.skip(0) =~= full);
            assert(kept@ =~= Seq::<(Effect, u64)>::empty());
            assert(kept@ + effects_fold(p0, full, tick).1 =~= effects_fold(p0, full, tick).1);
        }
        while i < n
            invariant
                i <= n,
                self@ == a0,
                n == a0.effects.len(),
                full == a0.effects,
                p0 == (Phys { hp: a0.hp, food: a0.food, speed: a0.stats.speed, color: a0.color }),
                effects_ok(full, tick),
                effects_ok(kept@, tick),
                effects_fold(p0, full, tick).0 == effects_fold(
                    Phys { hp: hp as int, food: food as int, speed: speed as int, color },
                    full.skip(i as int),
                    tick,
                ).0,
                effects_fold(p0, full, tick).1 == kept@ + effects_fold(
                    Phys { hp: hp as int, food: food as int, speed: speed as int, color },
                    full.skip(i as int),
                    tick,
                ).1,
            decreases n - i,
        {
            let ghost cur = Phys { hp: hp as int, food: food as int, speed: speed as int, color };
            let ghost rest = full.skip(i as int);
            let ghost kept0 = kept@;
            let (e, start) = self.effects[i];
            proof {
                assert(rest[0] == full[i as int]);
                assert(rest.drop_first() =~= full.skip(i as int + 1));
                assert(full[i as int] == (e, start));
            }
            match e {
                Effect::Nothing => {},
                Effect::Poison(iv) => {
                    if tick - start >= iv.duration as u64 {
                        color = AgentColor::White;
                    } else {
                        if (tick - start) % (iv.tick_interval as u64) == 0 {
                            hp = sat_add_i32(hp, iv.change);
                        }
                        color = AgentColor::Purple;
                        kept.push((e, start));
                    }
                },
                Effect::Heal(ie) => {
                    if tick == start {
                        hp = sat_add_i32(hp, ie.change);
                    }
                },
                Effect::Feed(ie) => {
                    if tick == start {
                        food = sat_add_i32(food, ie.change);
                    }
                },
                Effect::SpeedUp(de) => {
                    if tick == start {
                        speed = sat_add_i64(speed, de.change);
                        kept.push((e, start));
                    } else if tick - start >= de.duration as u64 {
                        speed = sat_sub_i64(speed, de.change);
                    } else {
                        kept.push((e, start));
                    }
                },
                Effect::SlowDown(de) => {
                    if tick == start {
                        speed = sat_add_i64(speed, de.change);
                        kept.push((e, start));
                    } else if tick - start >= de.duration as u64 {
                        speed = sat_sub_i64(speed, de.change);
                    } else {
                        kept.push((e, start));
                    }
                },
            }
            proof {
                let cur2 = Phys { hp: hp as int, food: food as int, speed: speed as int, color };
                let step = entry_step(cur, e, start, tick);
                let rest2 = effects_fold(cur2, full.skip(i as int + 1), tick);
                assert(cur2 == step.0);
                assert(effects_fold(cur, rest, tick).0 == rest2.0);
                if step.1 {
                    assert(kept@ =~= kept0.push((e, start)));
                    assert(effects_fold(cur, rest, tick).1 == seq![(e, start)] + rest2.1);
                    assert(kept0 + (seq![(e, start)] + rest2.1) =~= kept@ + rest2.1);
                } else {
                    assert(kept@ == kept0);
                    assert(effects_fold(cur, rest, tick).1 == rest2.1);
                }
            }
            i += 1;
        }
        proof {
            assert(full.skip(n as int) =~= Seq::<(Effect, u64)>::empty());
            assert(effects_fold(p0, full, tick).1 =~= kept@);
        }

        // Stat clamping, down to the base maxima only.
        if hp > self.base_stats.hp {
            hp = self.base_stats.hp;
        }
        if food > self.base_stats.food {
            food = self.base_stats.food;
        }

        // Speed-cap enforcement.
        let mut xv2: i64 = self.xv;
        let mut yv2: i64 = self.yv;
        proof {
            assert((self.xv as int) * (self.xv as int) <= 0x8000_0000_0000_0000
                * 0x8000_0000_0000_0000 && (self.xv as int) * (self.xv as int) >= 0)
                by (nonlinear_arith)
                requires
                    -0x8000_0000_0000_0000 <= self.xv <= 0x8000_0000_0000_0000,
            ;
            assert((self.yv as int) * (self.yv as int) <= 0x8000_0000_0000_0000
                * 0x8000_0000_0000_0000 && (self.yv as int) * (self.yv as int) >= 0)
                by (nonlinear_arith)
                requires
                    -0x8000_0000_0000_0000 <= self.yv <= 0x8000_0000_0000_0000,
            ;
        }
        let mag2: u128 = ((self.xv as i128) * (self.xv as i128)) as u128 + ((self.yv as i128)
            * (self.yv as i128)) as u128;
        if speed < 0 {
            xv2 = 0;
            yv2 = 0;
        } else {
            proof {
                assert((speed as int) * (speed as int) <= i64::MAX * i64::MAX) by (nonlinear_arith)
                    requires
                        0 <= speed <= i64::MAX,
                ;
            }
            let s2: u128 = ((speed as i128) * (speed as i128)) as u128;
            if mag2 > s2 {
                let m = isqrt_up(mag2);
                proof {
                    lemma_sqrt_up_unique(mag2 as int, m as int, sqrt_up_val(mag2 as int));
                    assert((speed as int) < m as int) by (nonlinear_arith)
                        requires
                            0 <= speed,
                            0 <= m,
                            (speed as int) * (speed as int) < mag2 as int,
                            (m as int) * (m as int) >= mag2 as int,
                    ;
                }
                xv2 = scale_vel_exec(self.xv, speed, m);
                yv2 = scale_vel_exec(self.yv, speed, m);
            }
        }

        // Metabolism: food drain saturating at zero, then starvation damage.
        let hunger: i32 = self.stats.tick_hunger as i32;
        if food <= hunger {
            food = 0;
        } else {
            food = food - hunger;
        }
        if food <= 0 {
            hp = sat_sub_i32(hp, self.stats.starving_pain as i32);
        }

        self.hp = hp;
        self.food = food;
        self.stats.speed = speed;
        self.effects = kept;
        self.color = color;
        self.xv = xv2;
        self.yv = yv2;

        // Death check, before movement.
        if hp <= 0 {
            proof {
                assert(self@ =~= run_tick_spec(a0, tick, *bounds).0);
            }
            return false;
        }

        // Movement, then the bounds check.
        self.x = sat_add_i64(self.x, xv2);
        self.y = sat_add_i64(self.y, yv2);
        proof {
            assert(self@ =~= run_tick_spec(a0, tick, *bounds).0);
        }
        bounds.left <= self.x && self.x <= bounds.right && bounds.bottom <= self.y && self.y
            <= bounds.top
    }
}

/// Eating is mutually exclusive with steering: one evaluation either queues
/// the pellet's effect and leaves the velocity untouched, or perturbs the
/// velocity and leaves the queue untouched — never both.
pub proof fn lemma_eval_exclusive(a: AgentV, p: Pellet, tick: u64)
    ensures
        eat_test(a, p) ==> ({
            let r = eval_spec(a, p, tick);
            r.effects == a.effects.push((p.effect, tick)) && r.xv == a.xv && r.yv == a.yv
                && r.vel_overflow == a.vel_overflow
        }),
        !eat_test(a, p) ==> eval_spec(a, p, tick).effects == a.effects,
{
}

/// One rescaled axis squared, against the cap: `scale_vel(v,s,m)^2 * m^2`
/// never exceeds `v^2 * s^2`.
proof fn lemma_scale_axis_sq(v: int, s: int, m: int)
    requires
        0 <= s,
        1 <= m,
    ensures
        scale_vel(v, s, m) * scale_vel(v, s, m) * (m * m) <= (v * v) * (s * s),
{
    let n = v * s;
    let a = if n >= 0 {
        n
    } else {
        -n
    };
    let q = a / m;
    vstd::arithmetic::div_mod::lemma_fundamental_div_mod(a, m);
    let r = a % m;
    assert(0 <= r < m) by {
        vstd::arithmetic::div_mod::lemma_mod_bound(a, m);
    }
    assert(q >= 0 && q * m <= a) by (nonlinear_arith)
        requires
            a == m * q + r,
            0 <= r < m,
            a >= 0,
            m >= 1,
    ;
    assert(q * q * (m * m) <= a * a) by (nonlinear_arith)
        requires
            q * m <= a,
            q >= 0,
            m >= 1,
            a >= 0,
    ;
    assert(a * a == (v * v) * (s * s)) by (nonlinear_arith)
        requires
            a == (if v * s >= 0 {
                v * s
            } else {
                -(v * s)
            }),
    ;
    let sv = scale_vel(v, s, m);
    assert(sv == q || sv == -q);
    assert(sv * sv == q * q) by (nonlinear_arith)
        requires
            sv == q || sv == -q,
    ;
}

/// After any tick, the agent's queue holds only periodic or
/// duration-bounded entries: every instant (`Heal`/`Feed`) or inert
/// (`Nothing`) entry was resolved in the pass and is gone for good.
pub proof fn lemma_no_instants_after_tick(a: AgentV, tick: u64, b: Bounds)
    requires
        !a.vel_overflow,
    ensures
        forall|i: int|
            0 <= i < run_tick_spec(a, tick, b).0.effects.len() ==> match (
            #[trigger] run_tick_spec(a, tick, b).0.effects[i]).0 {
                Effect::Poison(_) | Effect::SpeedUp(_) | Effect::SlowDown(_) => true,
                _ => false,
            },
{
    let p0 = Phys { hp: a.hp, food: a.food, speed: a.stats.speed, color: a.color };
    lemma_no_instants_retained(p0, a.effects, tick);
}

/// For all ticks, a surviving agent's health never exceeds its base maximum
/// health; the clamp applied before starvation damage is never undone later
/// in the tick, so the bound holds immediately after that damage too.
pub proof fn lemma_health_never_exceeds_max(a: AgentV, tick: u64, b: Bounds)
    requires
        a.in_range(),
        !a.vel_overflow,
    ensures
        run_tick_spec(a, tick, b).0.hp <= a.base_stats.hp,
        run_tick_spec(a, tick, b).1 ==> 0 < run_tick_spec(a, tick, b).0.hp,
{
}

/// For all ticks, food is never negative after the update: the metabolic
/// drain saturates at zero.
pub proof fn lemma_food_never_negative(a: AgentV, tick: u64, b: Bounds)
    requires
        !a.vel_overflow,
    ensures
        run_tick_spec(a, tick, b).0.food >= 0,
{
}

/// For all ticks, the post-update speed magnitude is within the working
/// speed cap: the squared magnitude of the new velocity never exceeds the
/// square of the (nonnegative part of the) cap that the tick left in the
/// working stats.
pub proof fn lemma_speed_capped(a: AgentV, tick: u64, b: Bounds)
    requires
        a.in_range(),
        !a.vel_overflow,
    ensures
        ({
            let st = run_tick_spec(a, tick, b).0;
            let s = if st.stats.speed >= 0 {
                st.stats.speed
            } else {
                0
            };
            st.xv * st.xv + st.yv * st.yv <= s * s
        }),
{
    let p0 = Phys { hp: a.hp, food: a.food, speed: a.stats.speed, color: a.color };
    let p1 = effects_fold(p0, a.effects, tick).0;
    let s = p1.speed;
    let mag2 = a.xv * a.xv + a.yv * a.yv;
    let st = run_tick_spec(a, tick, b).0;
    assert(st.stats.speed == s);
    assert(st.xv == capped_velocity(a.xv, a.yv, s).0);
    assert(st.yv == capped_velocity(a.xv, a.yv, s).1);
    if s < 0 {
        assert(st.xv == 0 && st.yv == 0);
    } else if mag2 > s * s {
        assert(mag2 >= 0) by (nonlinear_arith)
            requires
                mag2 == a.xv * a.xv + a.yv * a.yv,
        ;
        lemma_sqrt_up_exists(mag2);
        let m = sqrt_up_val(mag2);
        assert(m >= 1) by (nonlinear_arith)
            requires
                m >= 0,
                m * m >= mag2,
                mag2 > s * s,
                s >= 0,
        ;
        lemma_scale_axis_sq(a.xv, s, m);
        lemma_scale_axis_sq(a.yv, s, m);
        let q1 = scale_vel(a.xv, s, m);
        let q2 = scale_vel(a.yv, s, m);
        assert(q1 * q1 + q2 * q2 <= s * s) by (nonlinear_arith)
            requires
                q1 * q1 * (m * m) <= (a.xv * a.xv) * (s * s),
                q2 * q2 * (m * m) <= (a.yv * a.yv) * (s * s),
                a.xv * a.xv + a.yv * a.yv <= m * m,
                m >= 1,
                s >= 0,
        ;
    } else {
        assert(st.xv * st.xv + st.yv * st.yv <= s * s);
    }
}

} // verus!
