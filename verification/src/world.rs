//! The world driver: owns the agent and pellet collections, advances the
//! tick counter, triggers consumption evaluation and per-agent ticking,
//! removes the dead, and performs reproduction.

use vstd::prelude::*;
use crate::effects::effects_ok;
use crate::effects::lemma_effects_ok_monotonic;
use crate::entities::Bounds;
use crate::entities::Pellet;
use crate::entities::SimpleAgent;
use crate::entities::Stats;
use crate::num::lerp_u32;

verus! {

/// Hard cap on the pellet population.
pub const PELLET_CAP: usize = 200;

/// Hard cap on the agent population.
pub const AGENT_CAP: usize = 75;

/// Below this population, reproduction no longer waits for the random draw.
pub const LOW_POPULATION: usize = 10;

/// Below this population, reproduction no longer asks `can_reproduce`.
pub const CRITICAL_POPULATION: usize = 3;

/// How many pellets the world is seeded with.
pub const SEED_PELLETS: usize = 200;

/// How many agents the world is seeded with.
pub const SEED_AGENTS: usize = 50;

/// What holds of an agent that has just survived its own tick: it reports
/// live vitals and sits inside the bounds.
pub open spec fn survivor_ok(a: crate::entities::AgentV, b: Bounds) -> bool {
    &&& a.hp > 0
    &&& a.food >= 0
    &&& b.contains(a.x, a.y)
}

/// What holds of an agent born this tick: vitals at the base maxima, at
/// rest, with an empty effects queue, inside the bounds.
pub open spec fn newborn_ok(a: crate::entities::AgentV, b: Bounds) -> bool {
    &&& a.hp == a.base_stats.hp
    &&& a.food == a.base_stats.food
    &&& a.xv == 0 && a.yv == 0
    &&& a.effects == Seq::<(crate::effects::Effect, u64)>::empty()
    &&& b.contains(a.x, a.y)
}

/// The simulation state: the tick counter and the two populations.
pub struct World {
    pub tick: u64,
    pub pellets: Vec<Pellet>,
    pub agents: Vec<SimpleAgent>,
}

impl World {
    /// Every pellet and agent is well formed, and every queued effect was
    /// queued no later than the current tick.
    pub open spec fn wf(&self) -> bool {
        &&& forall|i: int| 0 <= i < self.pellets.len() ==> (#[trigger] self.pellets[i]).wf()
        &&& forall|i: int|
            0 <= i < self.agents.len() ==> (#[trigger] self.agents[i]).wf() && effects_ok(
                self.agents[i]@.effects,
                self.tick,
            )
    }

    /// A freshly seeded world: the full pellet population, and the seed
    /// agent population at random positions, all with the seed stat bundle.
    pub fn new(bounds: &Bounds) -> (w: World)
        requires
            bounds.wf(),
        ensures
            w.wf(),
            w.tick == 0,
            w.pellets.len() == SEED_PELLETS,
            w.agents.len() == SEED_AGENTS,
    {
        let mut pellets: Vec<Pellet> = Vec::new();
        let mut i: usize = 0;
        while i < SEED_PELLETS
            invariant
                bounds.wf(),
                i <= SEED_PELLETS,
                pellets.len() == i,
                forall|j: int| 0 <= j < pellets.len() ==> (#[trigger] pellets[j]).wf(),
            decreases SEED_PELLETS - i,
        {
            let p = Pellet::new(bounds, Option::None);
            pellets.push(p);
            i += 1;
        }
        let seed_stats = Stats {
            hp: 255,
            food: 255,
            speed: 10_000,
            tick_hunger: 1,
            starving_pain: 1,
        };
        let mut agents: Vec<SimpleAgent> = Vec::new();
        let mut k: usize = 0;
        while k < SEED_AGENTS
            invariant
                bounds.wf(),
                k <= SEED_AGENTS,
                agents.len() == k,
                forall|j: int|
                    0 <= j < agents.len() ==> (#[trigger] agents[j]).wf() && agents[j]@.effects
                        == Seq::<(crate::effects::Effect, u64)>::empty(),
            decreases SEED_AGENTS - k,
        {
            let ax = lerp_u32(bounds.left, bounds.right, rand::random::<u32>());
            let ay = lerp_u32(bounds.bottom, bounds.top, rand::random::<u32>());
            let a = SimpleAgent::new(ax, ay, seed_stats, Option::None, Option::None);
            agents.push(a);
            k += 1;
        }
        World { tick: 0, pellets, agents }
    }

    /// One simulation tick. In order: an opportunistic pellet spawn under
    /// the population cap; for each live agent, consumption evaluation
    /// against every live pellet (skipped for agents already outside the
    /// bounds), with consumed pellets removed; the agent's own per-tick
    /// update; a reproduction chance, taken when the population is below its
    /// cap and either the low-probability draw succeeds or the population is
    /// low, and either the agent can afford it or the population is
    /// critical; dead agents dropped, offspring appended, and the tick
    /// counter advanced.
    pub fn step(&mut self, bounds: &Bounds)
        requires
            old(self).wf(),
            bounds.wf(),
            old(self).tick < u64::MAX,
        ensures
            final(self).wf(),
            final(self).tick == old(self).tick + 1,
            old(self).pellets.len() <= PELLET_CAP ==> final(self).pellets.len() <= PELLET_CAP,
            final(self).agents.len() <= if old(self).agents.len() > AGENT_CAP {
                old(self).agents.len() as int
            } else {
                AGENT_CAP as int
            },
            forall|i: int|
                0 <= i < final(self).agents.len() ==> survivor_ok(
                    (#[trigger] final(self).agents[i])@,
                    *bounds,
                ) || newborn_ok(final(self).agents[i]@, *bounds),
    {
        let tick = self.tick;

        // Opportunistic pellet spawn, under the population cap.
        if self.pellets.len() < PELLET_CAP && rand::random::<u8>() < 48 {
            let p = Pellet::new(bounds, Option::None);
            self.pellets.push(p);
        }

        let ghost pmax = self.pellets.len() as int;
        let mut work: Vec<SimpleAgent> = Vec::new();
        core::mem::swap(&mut work, &mut self.agents);
        let ghost n0 = work.len() as int;
        let ghost cap = if n0 > AGENT_CAP { n0 } else { AGENT_CAP as int };
        let mut alive_agents: Vec<SimpleAgent> = Vec::new();
        let mut offspring: Vec<SimpleAgent> = Vec::new();
        let mut agent_count: usize = work.len();

        while work.len() > 0
            invariant
                bounds.wf(),
                self.tick == tick,
                tick < u64::MAX,
                forall|i: int| 0 <= i < self.pellets.len() ==> (#[trigger] self.pellets[i]).wf(),
                forall|i: int|
                    0 <= i < work.len() ==> (#[trigger] work[i]).wf() && effects_ok(
                        work[i]@.effects,
                        tick,
                    ),
                forall|i: int|
                    0 <= i < alive_agents.len() ==> (#[trigger] alive_agents[i]).wf()
                        && effects_ok(alive_agents[i]@.effects, tick) && survivor_ok(
                        alive_agents[i]@,
                        *bounds,
                    ),
                forall|i: int|
                    0 <= i < offspring.len() ==> (#[trigger] offspring[i]).wf() && effects_ok(
                        offspring[i]@.effects,
                        tick,
                    ) && newborn_ok(offspring[i]@, *bounds),
                self.pellets.len() <= pmax,
                cap >= AGENT_CAP,
                agent_count == n0 + offspring.len(),
                alive_agents.len() + work.len() <= n0,
                agent_count <= cap,
            decreases work.len(),
        {
            let mut agent = work.remove(0);

            // Consumption evaluation, skipped for agents already out of
            // bounds (they are about to die anyway).
            let (ax, ay) = agent.x_y();
            let oob = ax < bounds.left || ax > bounds.right || ay < bounds.bottom || ay
                > bounds.top;
            if !oob {
                let mut remaining: Vec<Pellet> = Vec::new();
                core::mem::swap(&mut remaining, &mut self.pellets);
                let ghost pl = remaining.len() as int;
                while remaining.len() > 0
                    invariant
                        bounds.wf(),
                        agent.wf(),
                        effects_ok(agent@.effects, tick),
                        forall|i: int|
                            0 <= i < remaining.len() ==> (#[trigger] remaining[i]).wf(),
                        forall|i: int|
                            0 <= i < self.pellets.len() ==> (#[trigger] self.pellets[i]).wf(),
                        self.pellets.len() + remaining.len() <= pl,
                        self.tick == tick,
                    decreases remaining.len(),
                {
                    let pellet = remaining.remove(0);
                    if agent.eval_consumable(&pellet, tick) {
                        self.pellets.push(pellet);
                    }
                }
            }

            // The agent's own tick.
            let ghost pre_tick = agent@;
            let alive = agent.run_tick(tick, bounds);

            // Reproduction, gated by the caps and the random draw; checked
            // whether or not the agent survived its tick, as the driver
            // always has.
            if agent_count < AGENT_CAP && (rand::random::<u8>() < 2 || agent_count
                < LOW_POPULATION) && (agent.can_reproduce() || agent_count < CRITICAL_POPULATION) {
                agent_count += 1;
                let child = agent.reproduce(bounds);
                offspring.push(child);
            }

            if alive {
                proof {
                    if !pre_tick.vel_overflow {
                        crate::tick::lemma_food_never_negative(pre_tick, tick, *bounds);
                    }
                }
                alive_agents.push(agent);
            }
        }

        self.agents = alive_agents;
        self.agents.append(&mut offspring);
        self.tick = tick + 1;
        proof {
            assert forall|i: int| 0 <= i < self.agents.len() implies (
            #[trigger] self.agents[i]).wf() && effects_ok(self.agents[i]@.effects, self.tick) by {
                lemma_effects_ok_monotonic(self.agents[i]@.effects, tick, self.tick);
            }
        }
    }
}

} // verus!
