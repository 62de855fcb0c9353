//! The effect model: what a pellet does to an agent, and how that change
//! unfolds over time.
//!
//! Effects are pure value data. Their temporal semantics — one-shot,
//! periodic, or duration-bounded — live in `entry_step`, the single spec
//! function that the per-tick agent update is proved against.

use vstd::prelude::*;
use crate::entities::AgentColor;
use crate::num::sat_add_i32_spec;
use crate::num::sat_add_i64_spec;
use crate::num::sat_sub_i64_spec;

verus! {

/// A one-shot change to health or food, in whole points.
#[derive(Copy, Clone, Debug, PartialEq, Eq, Structural)]
pub struct InstantEffect {
    pub change: i32,
}

/// A periodic change to health: applied every `tick_interval` ticks until
/// `duration` ticks have elapsed since application.
#[derive(Copy, Clone, Debug, PartialEq, Eq, Structural)]
pub struct IntervalEffect {
    pub change: i32,
    pub tick_interval: u8,
    pub duration: u16,
}

/// A temporary additive change to the speed cap, in milli-units per tick:
/// applied on the start tick and reversed once `duration` ticks have elapsed.
#[derive(Copy, Clone, Debug, PartialEq, Eq, Structural)]
pub struct DurationEffect {
    pub change: i64,
    pub duration: u16,
}

/// What a pellet does to the agent that eats it.
#[derive(Copy, Clone, Debug, PartialEq, Eq, Structural)]
pub enum Effect {
    Nothing,
    Poison(IntervalEffect),
    Heal(InstantEffect),
    Feed(InstantEffect),
    SpeedUp(DurationEffect),
    SlowDown(DurationEffect),
}

/// A periodic effect must have a nonzero period.
pub open spec fn effect_wf(e: Effect) -> bool {
    match e {
        Effect::Poison(iv) => iv.tick_interval > 0,
        _ => true,
    }
}

/// Every queued entry was queued no later than `tick`, and is well formed.
pub open spec fn effects_ok(entries: Seq<(Effect, u64)>, tick: u64) -> bool {
    forall|i: int|
        0 <= i < entries.len() ==> (#[trigger] entries[i]).1 <= tick && effect_wf(entries[i].0)
}

/// The physiological state an effect entry can touch.
pub ghost struct Phys {
    pub hp: int,
    pub food: int,
    pub speed: int,
    pub color: AgentColor,
}

/// One entry of the active-effects queue, resolved for one tick: the new
/// physiological state, and whether the entry stays queued.
///
/// - `Nothing` is inert and dropped.
/// - `Poison` is dropped, without firing, once `duration` ticks have elapsed;
///   while active it harms health every `tick_interval` ticks and sets the
///   poisoned display color.
/// - `Heal` and `Feed` fire only on the exact tick they were queued and are
///   always dropped after one resolution.
/// - `SpeedUp` and `SlowDown` adjust the working speed cap on their start
///   tick, and reverse that adjustment exactly once when they expire.
pub open spec fn entry_step(p: Phys, e: Effect, start: u64, tick: u64) -> (Phys, bool)
    recommends
        start <= tick,
        effect_wf(e),
{
    match e {
        Effect::Nothing => (p, false),
        Effect::Poison(iv) => if tick - start >= iv.duration {
            (Phys { color: AgentColor::White, ..p }, false)
        } else {
            let hp2 = if (tick - start) % (iv.tick_interval as int) == 0 {
                sat_add_i32_spec(p.hp, iv.change as int)
            } else {
                p.hp
            };
            (Phys { hp: hp2, color: AgentColor::Purple, ..p }, true)
        },
        Effect::Heal(ie) => if tick == start {
            (Phys { hp: sat_add_i32_spec(p.hp, ie.change as int), ..p }, false)
        } else {
            (p, false)
        },
        Effect::Feed(ie) => if tick == start {
            (Phys { food: sat_add_i32_spec(p.food, ie.change as int), ..p }, false)
        } else {
            (p, false)
        },
        Effect::SpeedUp(de) => duration_step(p, de, start, tick),
        Effect::SlowDown(de) => duration_step(p, de, start, tick),
    }
}

/// The shared schedule of `SpeedUp` and `SlowDown`.
pub open spec fn duration_step(p: Phys, de: DurationEffect, start: u64, tick: u64) -> (Phys, bool) {
    if tick == start {
        (Phys { speed: sat_add_i64_spec(p.speed, de.change as int), ..p }, true)
    } else if tick - start >= de.duration {
        (Phys { speed: sat_sub_i64_spec(p.speed, de.change as int), ..p }, false)
    } else {
        (p, true)
    }
}

/// The whole active-effects queue resolved for one tick, in order: the final
/// physiological state and the retained entries.
pub open spec fn effects_fold(p: Phys, entries: Seq<(Effect, u64)>, tick: u64) -> (
    Phys,
    Seq<(Effect, u64)>,
)
    decreases entries.len(),
{
    if entries.len() == 0 {
        (p, Seq::empty())
    } else {
        let head = entries[0];
        let (p1, keep) = entry_step(p, head.0, head.1, tick);
        let (p2, rest) = effects_fold(p1, entries.drop_first(), tick);
        (p2, if keep {
            seq![head] + rest
        } else {
            rest
        })
    }
}

/// A `Heal` or `Feed` entry fires exactly once — on the tick it was queued —
/// and is dropped in the same resolution pass, so it can never fire again.
pub proof fn lemma_instant_effect_fires_once(p: Phys, ie: InstantEffect, start: u64, tick: u64)
    ensures
        !entry_step(p, Effect::Heal(ie), start, tick).1,
        !entry_step(p, Effect::Feed(ie), start, tick).1,
        tick == start ==> entry_step(p, Effect::Heal(ie), start, tick).0 == (Phys {
            hp: sat_add_i32_spec(p.hp, ie.change as int),
            ..p
        }),
        tick == start ==> entry_step(p, Effect::Feed(ie), start, tick).0 == (Phys {
            food: sat_add_i32_spec(p.food, ie.change as int),
            ..p
        }),
        tick != start ==> entry_step(p, Effect::Heal(ie), start, tick).0 == p,
        tick != start ==> entry_step(p, Effect::Feed(ie), start, tick).0 == p,
{
}

/// No instant (`Heal`/`Feed`) or inert (`Nothing`) entry survives a
/// resolution pass: whatever the queue retains is periodic or
/// duration-bounded.
pub proof fn lemma_no_instants_retained(p: Phys, entries: Seq<(Effect, u64)>, tick: u64)
    ensures
        forall|i: int|
            0 <= i < effects_fold(p, entries, tick).1.len() ==> match (
            #[trigger] effects_fold(p, entries, tick).1[i]).0 {
                Effect::Poison(_) | Effect::SpeedUp(_) | Effect::SlowDown(_) => true,
                _ => false,
            },
    decreases entries.len(),
{
    if entries.len() > 0 {
        let head = entries[0];
        let (p1, keep) = entry_step(p, head.0, head.1, tick);
        lemma_no_instants_retained(p1, entries.drop_first(), tick);
    }
}

/// A `Poison` entry fires exactly on the ticks where `(tick - start)` is a
/// multiple of its period, stops firing once `duration` ticks have elapsed,
/// and is retained exactly while it has not expired.
pub proof fn lemma_poison_schedule(p: Phys, iv: IntervalEffect, start: u64, tick: u64)
    requires
        iv.tick_interval > 0,
        start <= tick,
    ensures
        entry_step(p, Effect::Poison(iv), start, tick).1 <==> tick - start < iv.duration,
        (tick - start < iv.duration && (tick - start) % (iv.tick_interval as int) == 0)
            ==> entry_step(p, Effect::Poison(iv), start, tick).0.hp == sat_add_i32_spec(
            p.hp,
            iv.change as int,
        ),
        (tick - start >= iv.duration || (tick - start) % (iv.tick_interval as int) != 0)
            ==> entry_step(p, Effect::Poison(iv), start, tick).0.hp == p.hp,
        entry_step(p, Effect::Poison(iv), start, tick).0.food == p.food,
        entry_step(p, Effect::Poison(iv), start, tick).0.speed == p.speed,
{
}

/// A `SpeedUp` or `SlowDown` entry's net contribution to the working speed
/// cap integrates to zero: the adjustment applied on the start tick is
/// reversed exactly once when the entry expires, absent saturation.
pub proof fn lemma_speed_effect_net_zero(p: Phys, de: DurationEffect, start: u64, t_end: u64)
    requires
        i64::MIN <= p.speed <= i64::MAX,
        i64::MIN <= p.speed + de.change <= i64::MAX,
        t_end > start,
        t_end - start >= de.duration,
    ensures
        ({
            let (p1, keep1) = entry_step(p, Effect::SpeedUp(de), start, start);
            let (p2, keep2) = entry_step(p1, Effect::SpeedUp(de), start, t_end);
            keep1 && !keep2 && p1.speed == p.speed + de.change && p2.speed == p.speed
        }),
        ({
            let (p1, keep1) = entry_step(p, Effect::SlowDown(de), start, start);
            let (p2, keep2) = entry_step(p1, Effect::SlowDown(de), start, t_end);
            keep1 && !keep2 && p1.speed == p.speed + de.change && p2.speed == p.speed
        }),
{
}

/// Entries queued no later than one tick are queued no later than any later
/// tick.
pub proof fn lemma_effects_ok_monotonic(entries: Seq<(Effect, u64)>, t1: u64, t2: u64)
    requires
        effects_ok(entries, t1),
        t1 <= t2,
    ensures
        effects_ok(entries, t2),
{
}

} // verus!
