//! The epoch controller: world construction, the per-step movement
//! passes, culling, plant replenishment, reproduction and early
//! termination on extinction.

use vstd::prelude::*;
use vstd::pervasive::unreached;

use crate::genome::{
    Genome, GeneView, EatingType, SimError, genome_wf, has_energy, mutates_to, crossover_gv,
    evolves_from, sat_add_spec_gv, TRAIT_CAP,
};
use crate::world::Grid;
use crate::engine::{
    herbi_detect, carni_detect, carni_eat, compare_strength, add_2x_tupel, round_milli,
    round_milli_spec, strength_margin, dir_vec, wrap_add_pos,
};
use crate::stats::{SimulationResult, layer_totals, average_7_tupel, averaged_totals, zero_totals};
use crate::rng::{rng_range_i64, shuffle_positions};
use crate::sat_add_i64;
use rand::rngs::ThreadRng;

verus! {

/// The construction-time configuration of a run.  Everything tunable is
/// explicit here; `validated` rejects degenerate values before any step
/// runs.  Energies and the meat-efficiency multiplier are fixed-point
/// milli-units.
#[derive(Debug, Clone, Copy, PartialEq, Eq, Structural)]
pub struct Config {
    pub plant_energy: i64,
    pub meat_efficiency: i64,
    pub strength_contest: bool,
    pub herbi_extra_mutation_chance: i64,
    pub carni_extra_mutation_chance: i64,
    pub slow_plant_decrease: i64,
    pub half_plant_at: u16,
    pub herbi_num: u16,
    pub carni_num: u16,
    pub plant_num: u16,
    pub x_lo: i32,
    pub x_hi: i32,
    pub y_lo: i32,
    pub y_hi: i32,
}

impl Config {
    /// A valid configuration: a non-empty spawn box, non-negative
    /// energies, and bounded multipliers.
    pub open spec fn wf(self) -> bool {
        &&& self.x_lo < self.x_hi
        &&& self.y_lo < self.y_hi
        &&& 0 <= self.plant_energy
        &&& 0 <= self.meat_efficiency <= TRAIT_CAP
        &&& 0 <= self.slow_plant_decrease <= 1_000_000
    }

    /// Accept this configuration iff it is valid.
    pub fn validated(self) -> (r: Result<Config, SimError>)
        ensures
            self.wf() ==> r == Ok::<Config, SimError>(self),
            !self.wf() ==> r == Err::<Config, SimError>(SimError::BadConfig),
    {
        if self.x_lo < self.x_hi && self.y_lo < self.y_hi && 0 <= self.plant_energy
            && 0 <= self.meat_efficiency && self.meat_efficiency <= TRAIT_CAP
            && 0 <= self.slow_plant_decrease && self.slow_plant_decrease <= 1_000_000 {
            Ok(self)
        } else {
            Err(SimError::BadConfig)
        }
    }
}

impl Default for Config {
    /// The stock tuning: a 101-by-101 spawn box, 300 plants worth 1.0
    /// energy, meat efficiency 2.0, the strength contest enabled, and a
    /// plant decay of 3 per epoch that halves from epoch 100 on.
    fn default() -> (r: Config)
        ensures
            r.wf(),
            r == (Config {
                plant_energy: 1000i64,
                meat_efficiency: 2000i64,
                strength_contest: true,
                herbi_extra_mutation_chance: 0i64,
                carni_extra_mutation_chance: 0i64,
                slow_plant_decrease: 3i64,
                half_plant_at: 100u16,
                herbi_num: 100u16,
                carni_num: 100u16,
                plant_num: 300u16,
                x_lo: -50i32,
                x_hi: 51i32,
                y_lo: -50i32,
                y_hi: 51i32,
            }),
    {
        Config {
            plant_energy: 1000,
            meat_efficiency: 2000,
            strength_contest: true,
            herbi_extra_mutation_chance: 0,
            carni_extra_mutation_chance: 0,
            slow_plant_decrease: 3,
            half_plant_at: 100,
            herbi_num: 100,
            carni_num: 100,
            plant_num: 300,
            x_lo: -50,
            x_hi: 51,
            y_lo: -50,
            y_hi: 51,
        }
    }
}

/// A uniformly random position inside the spawn box.
pub fn gen_pos(rng: &mut ThreadRng, cfg: &Config) -> (p: (i32, i32))
    requires
        cfg.wf(),
    ensures
        cfg.x_lo <= p.0 < cfg.x_hi,
        cfg.y_lo <= p.1 < cfg.y_hi,
{
    let x = rng_range_i64(rng, cfg.x_lo as i64, cfg.x_hi as i64);
    let y = rng_range_i64(rng, cfg.y_lo as i64, cfg.y_hi as i64);
    (x as i32, y as i32)
}

/// A uniformly random index below `max`.
pub fn gen_vec_pos(rng: &mut ThreadRng, max: usize) -> (r: usize)
    requires
        0 < max <= 9_223_372_036_854_775_807,
    ensures
        r < max,
{
    rng_range_i64(rng, 0, max as i64) as usize
}

/// Every genome of the layer is well formed and of diet class `et`.
pub open spec fn herd_ok<T: Genome>(g: Grid<T>, et: EatingType) -> bool {
    forall|p: (i32, i32)| #[trigger] g@.dom().contains(p) ==> genome_wf(g@[p].gv())
        && g@[p].gv().etype == et
}

/// A herbivore at `h` that shares its cell with a strictly stronger
/// carnivore and will act at least once (rounded speed at least 1):
/// the predation pre-check consumes it in the herbivore pass, in every
/// outcome of the randomness.
pub open spec fn certain_prey_at<T: Genome, E: Genome>(
    s: BasicSimulation<T, E>,
    h: (i32, i32),
) -> bool {
    &&& s.herbi@.dom().contains(h)
    &&& s.carni@.dom().contains(h)
    &&& round_milli_spec(s.herbi@[h].gv().speed) >= 1
    &&& strength_margin(s.carni@[h].gv(), s.herbi@[h].gv(), s.config.strength_contest) > 0
}

/// `g` is a possible crossover-plus-mutation offspring of two parents
/// drawn (with replacement) from the positions in `keys`.
pub open spec fn offspring_of<T: Genome>(
    g: GeneView,
    keys: Seq<(i32, i32)>,
    map: Map<(i32, i32), T>,
) -> bool {
    exists|a: int, b: int| 0 <= a < keys.len() && 0 <= b < keys.len()
        && mutates_to(crossover_gv(#[trigger] map[keys[a]].gv(), #[trigger] map[keys[b]].gv()), g)
}

/// An offspring of a herd of uniform diet class keeps that diet class.
pub proof fn lemma_offspring_herd<T: Genome>(
    g: GeneView,
    keys: Seq<(i32, i32)>,
    map: Map<(i32, i32), T>,
    et: EatingType,
)
    requires
        offspring_of(g, keys, map),
        forall|i: int| 0 <= i < keys.len() ==> map.dom().contains(#[trigger] keys[i]),
        forall|p: (i32, i32)| #[trigger] map.dom().contains(p) ==> map[p].gv().etype == et,
    ensures
        g.etype == et,
{
    let (a, b) = choose|a: int, b: int| 0 <= a < keys.len() && 0 <= b < keys.len()
        && mutates_to(crossover_gv(#[trigger] map[keys[a]].gv(), #[trigger] map[keys[b]].gv()), g);
    assert(map.dom().contains(keys[a]));
}

/// Breed the next generation of one species: repeatedly draw two
/// parents (with replacement) from the survivors' positions and place
/// one crossover-plus-mutation offspring at a fresh random position; a
/// position collision silently drops that attempt.
pub fn place_genom<T: Genome>(
    keys: &Vec<(i32, i32)>,
    map: &Grid<T>,
    chance: i64,
    genom_num: i32,
    cfg: &Config,
    rng: &mut ThreadRng,
) -> (next: Grid<T>)
    requires
        map.wf(),
        cfg.wf(),
        0 < keys@.len() <= 9_223_372_036_854_775_807,
        forall|j: int| 0 <= j < keys@.len() ==> map@.dom().contains(#[trigger] keys@[j]),
        forall|p: (i32, i32)| #[trigger] map@.dom().contains(p) ==> genome_wf(map@[p].gv()),
    ensures
        next.wf(),
        next.key_seq().len() <= (if genom_num > 0 { genom_num as int } else { 0 }),
        genom_num > 0 ==> next.key_seq().len() >= 1,
        forall|p: (i32, i32)| #[trigger] next@.dom().contains(p) ==> cfg.x_lo <= p.0 < cfg.x_hi
            && cfg.y_lo <= p.1 < cfg.y_hi,
        forall|p: (i32, i32)| #[trigger] next@.dom().contains(p) ==> genome_wf(next@[p].gv())
            && next@[p].gv().energy == 0 && offspring_of(next@[p].gv(), keys@, map@),
{
    let mut next: Grid<T> = Grid::new();
    if genom_num <= 0 {
        return next;
    }
    let n: i32 = genom_num;
    for it in 0..n
        invariant
            map.wf(),
            cfg.wf(),
            0 < n,
            keys@.len() > 0,
            keys@.len() <= 9_223_372_036_854_775_807,
            forall|j: int| 0 <= j < keys@.len() ==> map@.dom().contains(#[trigger] keys@[j]),
            forall|p: (i32, i32)| #[trigger] map@.dom().contains(p) ==> genome_wf(map@[p].gv()),
            next.wf(),
            next.key_seq().len() <= it as int,
            it > 0 ==> next.key_seq().len() >= 1,
            forall|p: (i32, i32)| #[trigger] next@.dom().contains(p) ==> cfg.x_lo <= p.0 < cfg.x_hi
                && cfg.y_lo <= p.1 < cfg.y_hi,
            forall|p: (i32, i32)| #[trigger] next@.dom().contains(p) ==> genome_wf(next@[p].gv())
                && next@[p].gv().energy == 0 && offspring_of(next@[p].gv(), keys@, map@),
    {
        let k = gen_pos(rng, cfg);
        let i1 = gen_vec_pos(rng, keys.len());
        let i2 = gen_vec_pos(rng, keys.len());
        let p1 = keys[i1];
        let p2 = keys[i2];
        proof {
            next.lemma_dom();
        }
        if !next.contains_key(&k) {
            let parent1 = map.get_req(&p1);
            let parent2 = map.get_req(&p2);
            let mut child = parent1.crossover(parent2);
            proof {
                assert(genome_wf(child.gv()));
            }
            child.mutate(chance, rng);
            next.insert(k, child);
            proof {
                assert(offspring_of(next@[k].gv(), keys@, map@)) by {
                    assert(mutates_to(
                        crossover_gv(map@[keys@[i1 as int]].gv(), map@[keys@[i2 as int]].gv()),
                        next@[k].gv(),
                    ));
                }
            }
        }
    }
    next
}

/// Remove every agent whose accumulated energy does not cover its
/// trait-weighted cost; survivors are untouched.
pub fn cull_layer<T: Genome>(layer: &mut Grid<T>)
    requires
        old(layer).wf(),
    ensures
        final(layer).wf(),
        forall|p: (i32, i32)| #[trigger] final(layer)@.dom().contains(p)
            <==> old(layer)@.dom().contains(p) && has_energy(old(layer)@[p].gv()),
        forall|p: (i32, i32)| #[trigger] final(layer)@.dom().contains(p)
            ==> final(layer)@[p] == old(layer)@[p],
        final(layer).key_seq().len() <= old(layer).key_seq().len(),
{
    let ks = layer.keys();
    proof {
        old(layer).lemma_dom();
    }
    let n = ks.len();
    for i in 0..n
        invariant
            layer.wf(),
            n == ks@.len(),
            ks@ == old(layer).key_seq(),
            ks@.no_duplicates(),
            layer.key_seq().len() <= old(layer).key_seq().len(),
            forall|j: int| i <= j < n ==> layer@.dom().contains(#[trigger] ks@[j])
                && layer@[ks@[j]] == old(layer)@[ks@[j]],
            forall|p: (i32, i32)| #[trigger] layer@.dom().contains(p)
                ==> old(layer)@.dom().contains(p) && layer@[p] == old(layer)@[p],
            forall|j: int| 0 <= j < i ==> (layer@.dom().contains(#[trigger] ks@[j])
                <==> has_energy(old(layer)@[ks@[j]].gv())),
    {
        let p = ks[i];
        let keep = layer.get_req(&p).has_enough_energy();
        if !keep {
            layer.remove(&p);
        }
    }
    proof {
        layer.lemma_dom();
        assert forall|p: (i32, i32)|
            old(layer)@.dom().contains(p) && has_energy(old(layer)@[p].gv())
            implies #[trigger] layer@.dom().contains(p) by {
            assert(old(layer).key_seq().contains(p));
            let j = choose|j: int| 0 <= j < old(layer).key_seq().len()
                && old(layer).key_seq()[j] == p;
            assert(ks@[j] == p);
        }
        assert forall|p: (i32, i32)| #[trigger] layer@.dom().contains(p)
            implies old(layer)@.dom().contains(p) && has_energy(old(layer)@[p].gv()) by {
            assert(old(layer).key_seq().contains(p));
            let j = choose|j: int| 0 <= j < old(layer).key_seq().len()
                && old(layer).key_seq()[j] == p;
            assert(ks@[j] == p);
        }
    }
}

/// The number of plants aimed for in epoch `e`: the base count shrinks
/// linearly with the epoch and is halved from the configured threshold
/// on; it never goes below zero.
pub open spec fn plant_target(c: Config, e: int) -> int {
    let t = c.plant_num - c.slow_plant_decrease * e;
    let t1 = if t < 0 { 0 } else { t };
    if e >= c.half_plant_at {
        t1 / 2
    } else {
        t1
    }
}

/// A freshly grown plant layer for epoch `e`: up to the target count of
/// plants at random positions, collisions silently skipped.
pub fn replenish_plants(cfg: &Config, e: u16, rng: &mut ThreadRng) -> (plants: Grid<bool>)
    requires
        cfg.wf(),
    ensures
        plants.wf(),
        plants.key_seq().len() <= plant_target(*cfg, e as int),
        plant_target(*cfg, e as int) > 0 ==> plants.key_seq().len() >= 1,
        forall|p: (i32, i32)| #[trigger] plants@.dom().contains(p) ==> cfg.x_lo <= p.0 < cfg.x_hi
            && cfg.y_lo <= p.1 < cfg.y_hi,
{
    proof {
        assert(cfg.slow_plant_decrease * (e as i64) <= 65_535_000_000) by (nonlinear_arith)
            requires
                0 <= cfg.slow_plant_decrease <= 1_000_000,
                0 <= e <= 65535,
        ;
        assert(cfg.slow_plant_decrease * (e as i64) >= 0) by (nonlinear_arith)
            requires
                0 <= cfg.slow_plant_decrease,
                0 <= e,
        ;
    }
    let mut target: i64 = cfg.plant_num as i64 - cfg.slow_plant_decrease * (e as i64);
    if target < 0 {
        target = 0;
    }
    if e >= cfg.half_plant_at {
        target = ((target as u64) / 2) as i64;
    }
    let mut plants: Grid<bool> = Grid::new();
    proof {
        assert(target == plant_target(*cfg, e as int));
    }
    for it in 0..target
        invariant
            cfg.wf(),
            target == plant_target(*cfg, e as int),
            plants.wf(),
            plants.key_seq().len() <= it,
            it > 0 ==> plants.key_seq().len() >= 1,
            forall|p: (i32, i32)| #[trigger] plants@.dom().contains(p) ==> cfg.x_lo <= p.0 < cfg.x_hi
                && cfg.y_lo <= p.1 < cfg.y_hi,
    {
        let k = gen_pos(rng, cfg);
        proof {
            plants.lemma_dom();
        }
        if !plants.contains_key(&k) {
            plants.insert(k, true);
        }
    }
    plants
}

/// A co-evolution simulation: the three world layers, the epoch budget
/// and tuning, and the derived statistics of the run so far.
pub struct BasicSimulation<T: Genome, E: Genome> {
    pub epochs: u16,
    pub sim_time: u16,
    pub mutation_chance: i64,
    pub config: Config,
    pub plants: Grid<bool>,
    pub herbi: Grid<T>,
    pub carni: Grid<E>,
    pub res: SimulationResult,
}

/// The populations as reproduction leaves them at the end of a
/// non-terminal epoch: within the configured targets (and non-empty
/// when the target is positive), every agent inside the spawn box with
/// a freshly reset energy of zero.
pub open spec fn post_reproduction<T: Genome, E: Genome>(s: BasicSimulation<T, E>) -> bool {
    &&& s.herbi.key_seq().len() <= s.config.herbi_num
    &&& (s.config.herbi_num > 0 ==> s.herbi.key_seq().len() >= 1)
    &&& s.carni.key_seq().len() <= s.config.carni_num
    &&& (s.config.carni_num > 0 ==> s.carni.key_seq().len() >= 1)
    &&& forall|p: (i32, i32)| #[trigger] s.herbi@.dom().contains(p)
        ==> s.herbi@[p].gv().energy == 0 && s.config.x_lo <= p.0 < s.config.x_hi
            && s.config.y_lo <= p.1 < s.config.y_hi
    &&& forall|p: (i32, i32)| #[trigger] s.carni@.dom().contains(p)
        ==> s.carni@[p].gv().energy == 0 && s.config.x_lo <= p.0 < s.config.x_hi
            && s.config.y_lo <= p.1 < s.config.y_hi
}

/// The start-of-run trait record of `s` is the truncating average of
/// the initial populations of `s0` (and stays zeroed for an initially
/// empty population).
pub open spec fn start_attrs_recorded<T: Genome, E: Genome>(
    s: BasicSimulation<T, E>,
    s0: BasicSimulation<T, E>,
) -> bool {
    &&& s0.herbi.entry_seq().len() > 0 ==> s.res.average_herbi_start_attributes.tv()
        == averaged_totals(s0.herbi.entry_seq())
    &&& s0.herbi.entry_seq().len() == 0 ==> s.res.average_herbi_start_attributes.tv()
        == zero_totals()
    &&& s0.carni.entry_seq().len() > 0 ==> s.res.average_carni_start_attributes.tv()
        == averaged_totals(s0.carni.entry_seq())
    &&& s0.carni.entry_seq().len() == 0 ==> s.res.average_carni_start_attributes.tv()
        == zero_totals()
}

/// The interface of a runnable simulation.
pub trait Simulation: Sized {
    /// The state invariant kept across a run.
    spec fn inv(&self) -> bool;

    /// The simulation has not run yet.
    spec fn ready(&self) -> bool;

    /// Drive the simulation to completion or extinction.
    fn run(&mut self, rng: &mut ThreadRng)
        requires
            old(self).inv(),
            old(self).ready(),
        ensures
            final(self).inv(),
    ;
}

impl<T: Genome, E: Genome> BasicSimulation<T, E> {
    /// The standing invariant: valid tuning, well-formed layers, a
    /// uniform diet class per layer, and populations small enough for
    /// the statistics counters.
    pub open spec fn wf(self) -> bool {
        &&& self.config.wf()
        &&& self.plants.wf()
        &&& self.herbi.wf()
        &&& self.carni.wf()
        &&& herd_ok(self.herbi, EatingType::Herbivore)
        &&& herd_ok(self.carni, EatingType::Carnivore)
        &&& self.herbi.key_seq().len() <= 65535
        &&& self.carni.key_seq().len() <= 65535
        &&& self.res.wf()
    }

    /// A randomized initial world: up to the configured number of
    /// plants, herbivores and carnivores at random positions, with
    /// position collisions silently skipped.
    pub fn new(
        epochs: u16,
        sim_time: u16,
        mutation_chance: i64,
        config: Config,
        rng: &mut ThreadRng,
    ) -> (s: Self)
        requires
            config.wf(),
        ensures
            s.wf(),
            s.epochs == epochs,
            s.sim_time == sim_time,
            s.mutation_chance == mutation_chance,
            s.config == config,
            s.res.wf(),
            s.res.is_fresh(),
            s.plants.key_seq().len() <= config.plant_num,
            s.herbi.key_seq().len() <= config.herbi_num,
            s.carni.key_seq().len() <= config.carni_num,
            config.plant_num > 0 ==> s.plants.key_seq().len() >= 1,
            config.herbi_num > 0 ==> s.herbi.key_seq().len() >= 1,
            config.carni_num > 0 ==> s.carni.key_seq().len() >= 1,
            forall|p: (i32, i32)| #[trigger] s.plants@.dom().contains(p)
                ==> config.x_lo <= p.0 < config.x_hi && config.y_lo <= p.1 < config.y_hi,
            forall|p: (i32, i32)| #[trigger] s.herbi@.dom().contains(p)
                ==> config.x_lo <= p.0 < config.x_hi && config.y_lo <= p.1 < config.y_hi,
            forall|p: (i32, i32)| #[trigger] s.carni@.dom().contains(p)
                ==> config.x_lo <= p.0 < config.x_hi && config.y_lo <= p.1 < config.y_hi,
    {
        let mut plants: Grid<bool> = Grid::new();
        let pn = config.plant_num;
        for it in 0..pn
            invariant
                config.wf(),
                plants.wf(),
                plants.key_seq().len() <= it,
                it > 0 ==> plants.key_seq().len() >= 1,
                forall|p: (i32, i32)| #[trigger] plants@.dom().contains(p)
                    ==> config.x_lo <= p.0 < config.x_hi && config.y_lo <= p.1 < config.y_hi,
        {
            let k = gen_pos(rng, &config);
            proof {
                plants.lemma_dom();
            }
            if !plants.contains_key(&k) {
                plants.insert(k, true);
            }
        }
        let mut herbi: Grid<T> = Grid::new();
        let hn = config.herbi_num;
        for it in 0..hn
            invariant
                config.wf(),
                herbi.wf(),
                herbi.key_seq().len() <= it,
                it > 0 ==> herbi.key_seq().len() >= 1,
                herd_ok(herbi, EatingType::Herbivore),
                forall|p: (i32, i32)| #[trigger] herbi@.dom().contains(p)
                    ==> config.x_lo <= p.0 < config.x_hi && config.y_lo <= p.1 < config.y_hi,
        {
            let k = gen_pos(rng, &config);
            proof {
                herbi.lemma_dom();
            }
            if !herbi.contains_key(&k) {
                let g = T::new(EatingType::Herbivore, rng);
                herbi.insert(k, g);
            }
        }
        let mut carni: Grid<E> = Grid::new();
        let cn = config.carni_num;
        for it in 0..cn
            invariant
                config.wf(),
                carni.wf(),
                carni.key_seq().len() <= it,
                it > 0 ==> carni.key_seq().len() >= 1,
                herd_ok(carni, EatingType::Carnivore),
                forall|p: (i32, i32)| #[trigger] carni@.dom().contains(p)
                    ==> config.x_lo <= p.0 < config.x_hi && config.y_lo <= p.1 < config.y_hi,
        {
            let k = gen_pos(rng, &config);
            proof {
                carni.lemma_dom();
            }
            if !carni.contains_key(&k) {
                let g = E::new(EatingType::Carnivore, rng);
                carni.insert(k, g);
            }
        }
        BasicSimulation {
            epochs,
            sim_time,
            mutation_chance,
            config,
            plants,
            herbi,
            carni,
            res: SimulationResult::new(),
        }
    }

    /// One sub-move of the herbivore at `h`.  If a strictly stronger
    /// carnivore shares the cell, the herbivore is consumed before it
    /// moves (the predation pre-check) and the carnivore gains exactly
    /// the prey's weight times the meat-efficiency multiplier.
    /// Otherwise the herbivore moves by its sensing decision, and when
    /// the destination holds a plant, the plant is removed and the
    /// herbivore's energy rises by exactly the configured plant energy
    /// (saturating).  Returns whether the herbivore survived, and its
    /// position afterwards.
    pub fn herbi_sub_move(&mut self, h: (i32, i32), rng: &mut ThreadRng) -> (r: (bool, (i32, i32)))
        requires
            old(self).wf(),
            old(self).herbi@.dom().contains(h),
        ensures
            final(self).wf(),
            final(self).epochs == old(self).epochs,
            final(self).sim_time == old(self).sim_time,
            final(self).mutation_chance == old(self).mutation_chance,
            final(self).config == old(self).config,
            final(self).res == old(self).res,
            r.0 == !(old(self).carni@.dom().contains(h) && strength_margin(
                old(self).carni@[h].gv(),
                old(self).herbi@[h].gv(),
                old(self).config.strength_contest,
            ) > 0),
            !r.0 ==> {
                &&& r.1 == h
                &&& final(self).herbi@ == old(self).herbi@.remove(h)
                &&& final(self).carni@.dom() == old(self).carni@.dom()
                &&& final(self).carni@[h].gv() == sat_add_spec_gv(
                    old(self).carni@[h].gv(),
                    old(self).herbi@[h].gv().weight * old(self).config.meat_efficiency / 1000,
                )
                &&& evolves_from(old(self).carni@[h].gv(), final(self).carni@[h].gv())
                &&& (forall|q: (i32, i32)| q != h && #[trigger] old(self).carni@.dom().contains(q)
                    ==> final(self).carni@[q] == old(self).carni@[q])
                &&& final(self).plants == old(self).plants
            },
            r.0 ==> {
                &&& (r.1 == h || (!old(self).herbi@.dom().contains(r.1)
                    && exists|k: int| 0 <= k < 4 && r.1 == wrap_add_pos(h, dir_vec(k))))
                &&& final(self).carni == old(self).carni
                &&& final(self).herbi@.dom() == old(self).herbi@.dom().remove(h).insert(r.1)
                &&& final(self).herbi.key_seq().len() == old(self).herbi.key_seq().len()
                &&& (forall|q: (i32, i32)| q != r.1 && #[trigger] final(self).herbi@.dom().contains(q)
                    ==> old(self).herbi@.dom().contains(q)
                        && final(self).herbi@[q] == old(self).herbi@[q])
                &&& if old(self).plants@.dom().contains(r.1) {
                    &&& final(self).plants@ == old(self).plants@.remove(r.1)
                    &&& final(self).herbi@[r.1].gv() == sat_add_spec_gv(
                        old(self).herbi@[h].gv(),
                        old(self).config.plant_energy as int,
                    )
                } else {
                    &&& final(self).plants == old(self).plants
                    &&& final(self).herbi@[r.1] == old(self).herbi@[h]
                }
            },
    {
        if self.carni.contains_key(&h) {
            let margin = compare_strength(
                self.carni.get_req(&h),
                self.herbi.get_req(&h),
                self.config.strength_contest,
            );
            if margin > 0 {
                let ghost pre_c = self.carni;
                let ghost pre_h = self.herbi;
                proof {
                    self.herbi.lemma_dom_len();
                    self.carni.lemma_dom_len();
                }
                carni_eat(&h, &mut self.carni, &mut self.herbi, self.config.meat_efficiency);
                proof {
                    self.herbi.lemma_dom_len();
                    self.carni.lemma_dom_len();
                    assert(self.carni@.dom() =~= pre_c@.dom());
                    assert forall|p: (i32, i32)| #[trigger] self.carni@.dom().contains(p)
                        implies genome_wf(self.carni@[p].gv())
                            && self.carni@[p].gv().etype == EatingType::Carnivore by {
                        if p != h {
                            assert(self.carni@[p] == pre_c@[p]);
                        }
                    }
                    assert forall|p: (i32, i32)| #[trigger] self.herbi@.dom().contains(p)
                        implies genome_wf(self.herbi@[p].gv())
                            && self.herbi@[p].gv().etype == EatingType::Herbivore by {
                        assert(pre_h@.dom().contains(p));
                        assert(self.herbi@[p] == pre_h@[p]);
                    }
                }
                return (false, h);
            }
        }
        let dir = herbi_detect(h, &self.carni, &self.herbi, &self.plants, rng);
        let ghost pre = self.herbi;
        let temp = match self.herbi.remove(&h) {
            Some(t) => t,
            None => unreached(),
        };
        let new_pos = add_2x_tupel(h, dir);
        proof {
            if dir == (0i32, 0i32) {
                assert(new_pos == h);
            }
            assert(!self.herbi@.dom().contains(new_pos));
            pre.lemma_dom_len();
            self.herbi.lemma_dom_len();
        }
        self.herbi.insert(new_pos, temp);
        proof {
            self.herbi.lemma_dom_len();
            assert(self.herbi@.dom() =~= pre@.dom().remove(h).insert(new_pos));
            assert forall|p: (i32, i32)| #[trigger] self.herbi@.dom().contains(p)
                implies genome_wf(self.herbi@[p].gv())
                    && self.herbi@[p].gv().etype == EatingType::Herbivore by {
                if p == new_pos {
                    assert(self.herbi@[p] == pre@[h]);
                } else {
                    assert(pre@.dom().contains(p));
                    assert(self.herbi@[p] == pre@[p]);
                }
            }
        }
        if self.plants.contains_key(&new_pos) {
            self.plants.remove(&new_pos);
            let ghost pre3 = self.herbi;
            let mut g = match self.herbi.remove(&new_pos) {
                Some(t) => t,
                None => unreached(),
            };
            let ghost pre2 = self.herbi;
            g.increase_energy(self.config.plant_energy);
            proof {
                pre2.lemma_dom_len();
                self.herbi.lemma_dom_len();
            }
            self.herbi.insert(new_pos, g);
            proof {
                self.herbi.lemma_dom_len();
                assert(self.herbi@.dom() =~= pre3@.dom());
                assert(self.herbi@.dom() =~= pre@.dom().remove(h).insert(new_pos));
                assert forall|p: (i32, i32)| #[trigger] self.herbi@.dom().contains(p)
                    implies genome_wf(self.herbi@[p].gv())
                        && self.herbi@[p].gv().etype == EatingType::Herbivore by {
                    if p != new_pos {
                        assert(pre2@.dom().contains(p));
                        assert(self.herbi@[p] == pre2@[p]);
                        assert(pre3@.dom().contains(p));
                        assert(pre2@[p] == pre3@[p]);
                    }
                }
                assert forall|q: (i32, i32)| q != new_pos
                    && #[trigger] self.herbi@.dom().contains(q)
                    implies pre@.dom().contains(q) && self.herbi@[q] == pre@[q] by {
                    assert(self.herbi@[q] == pre2@[q]);
                    assert(pre2@[q] == pre3@[q]);
                    assert(pre3@[q] == pre@[q]);
                }
            }
        }
        (true, new_pos)
    }

    /// The herbivore movement pass of one step: every herbivore of the
    /// pass snapshot acts in a freshly shuffled order, moving up to its
    /// rounded speed, foraging on plants it reaches, and being consumed
    /// when it stands on a stronger carnivore's cell.  Every surviving
    /// herbivore is a pre-pass herbivore whose energy did not decrease;
    /// carnivores keep their cells and heritable traits and only gain
    /// energy; and a herbivore doomed by the predation pre-check is
    /// consumed in every outcome.
    fn herbi_pass(&mut self, rng: &mut ThreadRng)
        requires
            old(self).wf(),
        ensures
            final(self).wf(),
            final(self).carni@.dom() == old(self).carni@.dom(),
            final(self).carni.key_seq().len() == old(self).carni.key_seq().len(),
            final(self).herbi.key_seq().len() <= old(self).herbi.key_seq().len(),
            forall|p: (i32, i32)| #[trigger] final(self).plants@.dom().contains(p)
                ==> old(self).plants@.dom().contains(p),
            forall|p: (i32, i32)| #[trigger] final(self).herbi@.dom().contains(p)
                ==> exists|q: (i32, i32)| old(self).herbi@.dom().contains(q)
                    && evolves_from(old(self).herbi@[q].gv(), final(self).herbi@[p].gv()),
            forall|p: (i32, i32)| #[trigger] final(self).carni@.dom().contains(p)
                ==> evolves_from(old(self).carni@[p].gv(), final(self).carni@[p].gv()),
            (exists|h: (i32, i32)| certain_prey_at(*old(self), h))
                ==> final(self).herbi.key_seq().len() < old(self).herbi.key_seq().len(),
            final(self).epochs == old(self).epochs,
            final(self).sim_time == old(self).sim_time,
            final(self).mutation_chance == old(self).mutation_chance,
            final(self).config == old(self).config,
            final(self).res == old(self).res,
    {
        let mut hkeys = self.herbi.keys();
        let ghost ks0 = hkeys@;
        proof {
            self.herbi.lemma_dom();
        }
        shuffle_positions(rng, &mut hkeys);
        proof {
            broadcast use vstd::seq_lib::group_to_multiset_ensures;

            ks0.lemma_multiset_has_no_duplicates();
            hkeys@.lemma_multiset_has_no_duplicates_conv();
            assert forall|j: int| 0 <= j < hkeys@.len()
                implies self.herbi@.dom().contains(#[trigger] hkeys@[j]) by {
                assert(hkeys@.to_multiset().count(hkeys@[j]) > 0);
                assert(ks0.contains(hkeys@[j]));
            }
        }
        let n = hkeys.len();
        let ghost doom_ex = exists|h: (i32, i32)| certain_prey_at(*old(self), h);
        let ghost doomed = choose|h: (i32, i32)| certain_prey_at(*old(self), h);
        let ghost di: int = choose|j: int| 0 <= j < hkeys@.len() && hkeys@[j] == doomed;
        proof {
            broadcast use vstd::seq_lib::group_to_multiset_ensures;

            old(self).carni.lemma_dom_len();
            if doom_ex {
                assert(certain_prey_at(*old(self), doomed));
                assert(ks0.contains(doomed));
                assert(hkeys@.to_multiset().count(doomed) > 0);
                assert(hkeys@.contains(doomed));
                let jw = choose|j: int| 0 <= j < hkeys@.len() && hkeys@[j] == doomed;
                assert(0 <= di < hkeys@.len() && hkeys@[di] == doomed);
            }
        }
        for i in 0..n
            invariant
                self.wf(),
                n == hkeys@.len(),
                hkeys@.no_duplicates(),
                self.carni@.dom() == old(self).carni@.dom(),
                self.herbi.key_seq().len() <= old(self).herbi.key_seq().len(),
                forall|p: (i32, i32)| #[trigger] self.plants@.dom().contains(p)
                    ==> old(self).plants@.dom().contains(p),
                forall|j: int| i <= j < n ==> self.herbi@.dom().contains(#[trigger] hkeys@[j])
                    && self.herbi@[hkeys@[j]] == old(self).herbi@[hkeys@[j]],
                forall|p: (i32, i32)| #[trigger] self.herbi@.dom().contains(p)
                    ==> exists|q: (i32, i32)| old(self).herbi@.dom().contains(q)
                        && evolves_from(old(self).herbi@[q].gv(), self.herbi@[p].gv()),
                forall|p: (i32, i32)| #[trigger] self.carni@.dom().contains(p)
                    ==> evolves_from(old(self).carni@[p].gv(), self.carni@[p].gv()),
                doom_ex ==> 0 <= di < n && hkeys@[di] == doomed
                    && certain_prey_at(*old(self), doomed),
                doom_ex && i as int > di ==> self.herbi.key_seq().len()
                    < old(self).herbi.key_seq().len(),
                self.epochs == old(self).epochs,
                self.sim_time == old(self).sim_time,
                self.mutation_chance == old(self).mutation_chance,
                self.config == old(self).config,
                self.res == old(self).res,
        {
            let mut h = hkeys[i];
            let speed = round_milli(self.herbi.get_req(&h).get_speed());
            let ghost pre_hi = self.herbi;
            let ghost pre_ci = self.carni;
            let ghost cond = doom_ex && i as int == di;
            proof {
                if cond {
                    assert(self.herbi@.dom().contains(hkeys@[i as int]));
                    assert(self.herbi@[doomed] == old(self).herbi@[doomed]);
                    assert(self.carni@.dom().contains(doomed));
                    assert(evolves_from(old(self).carni@[doomed].gv(), self.carni@[doomed].gv()));
                    assert(speed >= 1);
                }
            }
            let mut m: i64 = 0;
            while m < speed
                invariant_except_break
                    self.herbi@.dom().contains(h),
                    forall|j: int| i < j < n ==> hkeys@[j] != h,
                    m == 0 ==> self.herbi == pre_hi && self.carni == pre_ci
                        && h == hkeys@[i as int],
                invariant
                    self.wf(),
                    0 <= m <= speed,
                    n == hkeys@.len(),
                    hkeys@.no_duplicates(),
                    self.carni@.dom() == old(self).carni@.dom(),
                    self.herbi.key_seq().len() <= old(self).herbi.key_seq().len(),
                    forall|p: (i32, i32)| #[trigger] self.plants@.dom().contains(p)
                        ==> old(self).plants@.dom().contains(p),
                    forall|j: int| i < j < n ==> self.herbi@.dom().contains(#[trigger] hkeys@[j])
                        && self.herbi@[hkeys@[j]] == old(self).herbi@[hkeys@[j]],
                    forall|p: (i32, i32)| #[trigger] self.herbi@.dom().contains(p)
                        ==> exists|q: (i32, i32)| old(self).herbi@.dom().contains(q)
                            && evolves_from(old(self).herbi@[q].gv(), self.herbi@[p].gv()),
                    forall|p: (i32, i32)| #[trigger] self.carni@.dom().contains(p)
                        ==> evolves_from(old(self).carni@[p].gv(), self.carni@[p].gv()),
                    cond ==> m == 0,
                    pre_hi.wf(),
                    cond ==> pre_hi@.dom().contains(hkeys@[i as int]),
                    cond ==> pre_ci@.dom().contains(hkeys@[i as int]),
                    cond ==> strength_margin(
                        pre_ci@[hkeys@[i as int]].gv(),
                        pre_hi@[hkeys@[i as int]].gv(),
                        self.config.strength_contest,
                    ) > 0,
                    cond ==> speed >= 1,
                    doom_ex && i as int > di ==> self.herbi.key_seq().len()
                        < old(self).herbi.key_seq().len(),
                    self.epochs == old(self).epochs,
                    self.sim_time == old(self).sim_time,
                    self.mutation_chance == old(self).mutation_chance,
                    self.config == old(self).config,
                    self.res == old(self).res,
                ensures
                    self.wf(),
                    self.carni@.dom() == old(self).carni@.dom(),
                    self.herbi.key_seq().len() <= old(self).herbi.key_seq().len(),
                    forall|p: (i32, i32)| #[trigger] self.plants@.dom().contains(p)
                        ==> old(self).plants@.dom().contains(p),
                    forall|j: int| i < j < n ==> self.herbi@.dom().contains(#[trigger] hkeys@[j])
                        && self.herbi@[hkeys@[j]] == old(self).herbi@[hkeys@[j]],
                    forall|p: (i32, i32)| #[trigger] self.herbi@.dom().contains(p)
                        ==> exists|q: (i32, i32)| old(self).herbi@.dom().contains(q)
                            && evolves_from(old(self).herbi@[q].gv(), self.herbi@[p].gv()),
                    forall|p: (i32, i32)| #[trigger] self.carni@.dom().contains(p)
                        ==> evolves_from(old(self).carni@[p].gv(), self.carni@[p].gv()),
                    cond ==> self.herbi.key_seq().len() < pre_hi.key_seq().len(),
                    doom_ex && i as int > di ==> self.herbi.key_seq().len()
                        < old(self).herbi.key_seq().len(),
                    self.epochs == old(self).epochs,
                    self.sim_time == old(self).sim_time,
                    self.mutation_chance == old(self).mutation_chance,
                    self.config == old(self).config,
                    self.res == old(self).res,
                decreases speed - m,
            {
                let ghost ps = *self;
                let (alive, h2) = self.herbi_sub_move(h, rng);
                proof {
                    ps.herbi.lemma_dom_len();
                    self.herbi.lemma_dom_len();
                    if !alive {
                        assert(self.herbi@.dom() =~= ps.herbi@.dom().remove(h));
                        assert forall|p: (i32, i32)| #[trigger] self.carni@.dom().contains(p)
                            implies evolves_from(old(self).carni@[p].gv(), self.carni@[p].gv()) by {
                            if p != h {
                                assert(self.carni@[p] == ps.carni@[p]);
                            } else {
                                assert(evolves_from(ps.carni@[h].gv(), self.carni@[h].gv()));
                            }
                        }
                        assert forall|p: (i32, i32)| #[trigger] self.herbi@.dom().contains(p)
                            implies exists|q: (i32, i32)| old(self).herbi@.dom().contains(q)
                                && evolves_from(old(self).herbi@[q].gv(), self.herbi@[p].gv()) by {
                            assert(ps.herbi@.dom().contains(p));
                            assert(self.herbi@[p] == ps.herbi@[p]);
                        }
                    } else {
                        assert(self.carni == ps.carni);
                        assert forall|j: int| i < j < n
                            implies self.herbi@.dom().contains(#[trigger] hkeys@[j])
                                && self.herbi@[hkeys@[j]] == old(self).herbi@[hkeys@[j]] by {
                            assert(hkeys@[j] != h);
                            assert(ps.herbi@.dom().contains(hkeys@[j]));
                            if h2 != h {
                                assert(!ps.herbi@.dom().contains(h2));
                                assert(hkeys@[j] != h2);
                            }
                            assert(self.herbi@.dom().contains(hkeys@[j]));
                            assert(self.herbi@[hkeys@[j]] == ps.herbi@[hkeys@[j]]);
                        }
                        assert forall|p: (i32, i32)| #[trigger] self.herbi@.dom().contains(p)
                            implies exists|q: (i32, i32)| old(self).herbi@.dom().contains(q)
                                && evolves_from(old(self).herbi@[q].gv(), self.herbi@[p].gv()) by {
                            if p == h2 {
                                assert(ps.herbi@.dom().contains(h));
                                let qw = choose|q: (i32, i32)| old(self).herbi@.dom().contains(q)
                                    && evolves_from(old(self).herbi@[q].gv(), ps.herbi@[h].gv());
                                if ps.plants@.dom().contains(h2) {
                                    assert(self.herbi@[h2].gv() == sat_add_spec_gv(
                                        ps.herbi@[h].gv(),
                                        ps.config.plant_energy as int,
                                    ));
                                    assert(evolves_from(old(self).herbi@[qw].gv(), self.herbi@[h2].gv()));
                                } else {
                                    assert(self.herbi@[h2] == ps.herbi@[h]);
                                }
                            } else {
                                assert(ps.herbi@.dom().contains(p));
                                assert(self.herbi@[p] == ps.herbi@[p]);
                            }
                        }
                        assert forall|p: (i32, i32)| #[trigger] self.plants@.dom().contains(p)
                            implies old(self).plants@.dom().contains(p) by {
                            assert(ps.plants@.dom().contains(p));
                        }
                    }
                }
                if !alive {
                    break;
                }
                proof {
                    assert forall|j: int| i < j < n implies hkeys@[j] != h2 by {
                        if h2 != h {
                            assert(ps.herbi@.dom().contains(hkeys@[j]));
                            assert(!ps.herbi@.dom().contains(h2));
                        }
                    }
                }
                h = h2;
                m = m + 1;
            }
        }
        proof {
            self.carni.lemma_dom_len();
            old(self).carni.lemma_dom_len();
        }
    }

    /// The carnivore movement pass of one step: every carnivore of the
    /// pass snapshot acts in a freshly shuffled order, moving up to its
    /// rounded speed and consuming a weaker herbivore it lands on.
    /// Every carnivore afterwards is a pre-pass carnivore whose energy
    /// did not decrease, and surviving herbivores are byte-identical to
    /// their pre-pass selves.
    fn carni_pass(&mut self, rng: &mut ThreadRng)
        requires
            old(self).wf(),
        ensures
            final(self).wf(),
            final(self).carni.key_seq().len() == old(self).carni.key_seq().len(),
            final(self).herbi.key_seq().len() <= old(self).herbi.key_seq().len(),
            forall|p: (i32, i32)| #[trigger] final(self).plants@.dom().contains(p)
                ==> old(self).plants@.dom().contains(p),
            forall|p: (i32, i32)| #[trigger] final(self).herbi@.dom().contains(p)
                ==> old(self).herbi@.dom().contains(p)
                    && final(self).herbi@[p] == old(self).herbi@[p],
            forall|p: (i32, i32)| #[trigger] final(self).carni@.dom().contains(p)
                ==> exists|q: (i32, i32)| old(self).carni@.dom().contains(q)
                    && evolves_from(old(self).carni@[q].gv(), final(self).carni@[p].gv()),
            final(self).epochs == old(self).epochs,
            final(self).sim_time == old(self).sim_time,
            final(self).mutation_chance == old(self).mutation_chance,
            final(self).config == old(self).config,
            final(self).res == old(self).res,
    {
        let mut ckeys = self.carni.keys();
        shuffle_positions(rng, &mut ckeys);
        let n = ckeys.len();
        for i in 0..n
            invariant
                self.wf(),
                n == ckeys@.len(),
                self.carni.key_seq().len() == old(self).carni.key_seq().len(),
                self.herbi.key_seq().len() <= old(self).herbi.key_seq().len(),
                forall|p: (i32, i32)| #[trigger] self.plants@.dom().contains(p)
                    ==> old(self).plants@.dom().contains(p),
                forall|p: (i32, i32)| #[trigger] self.herbi@.dom().contains(p)
                    ==> old(self).herbi@.dom().contains(p)
                        && self.herbi@[p] == old(self).herbi@[p],
                forall|p: (i32, i32)| #[trigger] self.carni@.dom().contains(p)
                    ==> exists|q: (i32, i32)| old(self).carni@.dom().contains(q)
                        && evolves_from(old(self).carni@[q].gv(), self.carni@[p].gv()),
                self.epochs == old(self).epochs,
                self.sim_time == old(self).sim_time,
                self.mutation_chance == old(self).mutation_chance,
                self.config == old(self).config,
                self.res == old(self).res,
        {
            let mut c = ckeys[i];
            if self.carni.contains_key(&c) {
                let speed = round_milli(self.carni.get_req(&c).get_speed());
                let mut m: i64 = 0;
                while m < speed
                    invariant
                        self.wf(),
                        0 <= m <= speed,
                        self.carni@.dom().contains(c),
                        self.carni.key_seq().len() == old(self).carni.key_seq().len(),
                        self.herbi.key_seq().len() <= old(self).herbi.key_seq().len(),
                        forall|p: (i32, i32)| #[trigger] self.plants@.dom().contains(p)
                            ==> old(self).plants@.dom().contains(p),
                        forall|p: (i32, i32)| #[trigger] self.herbi@.dom().contains(p)
                            ==> old(self).herbi@.dom().contains(p)
                                && self.herbi@[p] == old(self).herbi@[p],
                        forall|p: (i32, i32)| #[trigger] self.carni@.dom().contains(p)
                            ==> exists|q: (i32, i32)| old(self).carni@.dom().contains(q)
                                && evolves_from(old(self).carni@[q].gv(), self.carni@[p].gv()),
                        self.epochs == old(self).epochs,
                        self.sim_time == old(self).sim_time,
                        self.mutation_chance == old(self).mutation_chance,
                        self.config == old(self).config,
                        self.res == old(self).res,
                    decreases speed - m,
                {
                    let dir = carni_detect(c, &self.carni, &self.herbi, rng);
                    let ghost pre = self.carni;
                    let temp = match self.carni.remove(&c) {
                        Some(t) => t,
                        None => unreached(),
                    };
                    let new_pos = add_2x_tupel(c, dir);
                    proof {
                        if dir == (0i32, 0i32) {
                            assert(new_pos == c);
                        }
                        assert(!self.carni@.dom().contains(new_pos));
                        pre.lemma_dom_len();
                        self.carni.lemma_dom_len();
                    }
                    self.carni.insert(new_pos, temp);
                    proof {
                        self.carni.lemma_dom_len();
                        assert forall|p: (i32, i32)| #[trigger] self.carni@.dom().contains(p)
                            implies genome_wf(self.carni@[p].gv())
                                && self.carni@[p].gv().etype == EatingType::Carnivore
                                && exists|q: (i32, i32)| old(self).carni@.dom().contains(q)
                                    && evolves_from(old(self).carni@[q].gv(), self.carni@[p].gv()) by {
                            if p == new_pos {
                                assert(pre@.dom().contains(c));
                                assert(self.carni@[p] == pre@[c]);
                            } else {
                                assert(pre@.dom().contains(p));
                                assert(self.carni@[p] == pre@[p]);
                            }
                        }
                    }
                    c = new_pos;
                    if self.herbi.contains_key(&new_pos) {
                        let margin = compare_strength(
                            self.carni.get_req(&new_pos),
                            self.herbi.get_req(&new_pos),
                            self.config.strength_contest,
                        );
                        if margin > 0 {
                            let ghost pre_c = self.carni;
                            let ghost pre_h = self.herbi;
                            proof {
                                self.herbi.lemma_dom_len();
                                self.carni.lemma_dom_len();
                            }
                            carni_eat(
                                &new_pos,
                                &mut self.carni,
                                &mut self.herbi,
                                self.config.meat_efficiency,
                            );
                            proof {
                                self.herbi.lemma_dom_len();
                                self.carni.lemma_dom_len();
                                assert(self.carni@.dom() =~= pre_c@.dom());
                                assert forall|p: (i32, i32)| #[trigger] self.carni@.dom().contains(p)
                                    implies genome_wf(self.carni@[p].gv())
                                        && self.carni@[p].gv().etype == EatingType::Carnivore
                                        && exists|q: (i32, i32)| old(self).carni@.dom().contains(q)
                                            && evolves_from(old(self).carni@[q].gv(), self.carni@[p].gv()) by {
                                    if p == c {
                                        assert(pre_c@.dom().contains(c));
                                        assert(evolves_from(pre_c@[c].gv(), self.carni@[c].gv()));
                                    } else {
                                        assert(pre_c@.dom().contains(p));
                                        assert(self.carni@[p] == pre_c@[p]);
                                    }
                                }
                                assert forall|p: (i32, i32)| #[trigger] self.herbi@.dom().contains(p)
                                    implies genome_wf(self.herbi@[p].gv())
                                        && self.herbi@[p].gv().etype == EatingType::Herbivore
                                        && old(self).herbi@.dom().contains(p)
                                        && self.herbi@[p] == old(self).herbi@[p] by {
                                    assert(pre_h@.dom().contains(p));
                                    assert(self.herbi@[p] == pre_h@[p]);
                                }
                            }
                        }
                    }
                    m = m + 1;
                }
            }
        }
    }

    /// One simulation step: the full herbivore pass, then the full
    /// carnivore pass.  Layer well-formedness — no two same-species
    /// agents on one cell — is preserved throughout; the carnivore
    /// population is unchanged and the herbivore population can only
    /// shrink (by predation).  Every agent afterwards is a pre-step
    /// agent of its species with the same heritable traits and diet
    /// class and with energy not decreased, and a herbivore standing on
    /// a strictly stronger carnivore's cell with at least one sub-move
    /// is consumed in every outcome.
    pub fn simulation_step(&mut self, rng: &mut ThreadRng)
        requires
            old(self).wf(),
        ensures
            final(self).wf(),
            final(self).carni.key_seq().len() == old(self).carni.key_seq().len(),
            final(self).herbi.key_seq().len() <= old(self).herbi.key_seq().len(),
            forall|p: (i32, i32)| #[trigger] final(self).plants@.dom().contains(p)
                ==> old(self).plants@.dom().contains(p),
            forall|p: (i32, i32)| #[trigger] final(self).herbi@.dom().contains(p)
                ==> exists|q: (i32, i32)| old(self).herbi@.dom().contains(q)
                    && evolves_from(old(self).herbi@[q].gv(), final(self).herbi@[p].gv()),
            forall|p: (i32, i32)| #[trigger] final(self).carni@.dom().contains(p)
                ==> exists|q: (i32, i32)| old(self).carni@.dom().contains(q)
                    && evolves_from(old(self).carni@[q].gv(), final(self).carni@[p].gv()),
            (exists|h: (i32, i32)| certain_prey_at(*old(self), h))
                ==> final(self).herbi.key_seq().len() < old(self).herbi.key_seq().len(),
            final(self).epochs == old(self).epochs,
            final(self).sim_time == old(self).sim_time,
            final(self).mutation_chance == old(self).mutation_chance,
            final(self).config == old(self).config,
            final(self).res == old(self).res,
    {
        proof {
            old(self).carni.lemma_dom_len();
        }
        self.herbi_pass(rng);
        let ghost mid = *self;
        proof {
            self.carni.lemma_dom_len();
        }
        self.carni_pass(rng);
        proof {
            assert forall|p: (i32, i32)| #[trigger] self.herbi@.dom().contains(p)
                implies exists|q: (i32, i32)| old(self).herbi@.dom().contains(q)
                    && evolves_from(old(self).herbi@[q].gv(), self.herbi@[p].gv()) by {
                assert(mid.herbi@.dom().contains(p));
                assert(self.herbi@[p] == mid.herbi@[p]);
                let q = choose|q: (i32, i32)| old(self).herbi@.dom().contains(q)
                    && evolves_from(old(self).herbi@[q].gv(), mid.herbi@[p].gv());
                assert(old(self).herbi@.dom().contains(q)
                    && evolves_from(old(self).herbi@[q].gv(), self.herbi@[p].gv()));
            }
            assert forall|p: (i32, i32)| #[trigger] self.carni@.dom().contains(p)
                implies exists|q: (i32, i32)| old(self).carni@.dom().contains(q)
                    && evolves_from(old(self).carni@[q].gv(), self.carni@[p].gv()) by {
                let qm = choose|q: (i32, i32)| mid.carni@.dom().contains(q)
                    && evolves_from(mid.carni@[q].gv(), self.carni@[p].gv());
                assert(mid.carni@.dom().contains(qm));
                assert(evolves_from(old(self).carni@[qm].gv(), mid.carni@[qm].gv()));
                assert(old(self).carni@.dom().contains(qm)
                    && evolves_from(old(self).carni@[qm].gv(), self.carni@[p].gv()));
            }
        }
    }

    /// Drive the configured number of epochs: each epoch runs the
    /// per-step movement passes, culls agents that failed to cover
    /// their energy cost, checks both populations for extinction
    /// (terminating early and recording the extinguished species), and
    /// otherwise regrows the plant layer and breeds both next
    /// generations.  The start-of-run record holds the exact truncating
    /// trait averages of the initial populations; a completed run ends
    /// right after reproduction (fresh generations within the targets,
    /// all energies zero, inside the spawn box), and a terminated run
    /// ends right after culling (every survivor covered its cost).
    pub fn run(&mut self, rng: &mut ThreadRng)
        requires
            old(self).wf(),
            old(self).res.is_fresh(),
        ensures
            final(self).wf(),
            final(self).epochs == old(self).epochs,
            final(self).sim_time == old(self).sim_time,
            final(self).mutation_chance == old(self).mutation_chance,
            final(self).config == old(self).config,
            final(self).res.epoch <= final(self).epochs,
            final(self).res.die_out == Option::<EatingType>::None
                ==> final(self).res.epoch == final(self).epochs,
            final(self).res.die_out == Option::Some(EatingType::Carnivore)
                ==> final(self).carni.key_seq().len() <= 1,
            final(self).res.die_out == Option::Some(EatingType::Herbivore)
                ==> final(self).herbi.key_seq().len() <= 1
                    && final(self).carni.key_seq().len() > 1,
            final(self).res.die_out != Option::Some(EatingType::Omnivore),
            final(self).res.die_out is Some ==> (forall|p: (i32, i32)|
                #[trigger] final(self).herbi@.dom().contains(p)
                    ==> has_energy(final(self).herbi@[p].gv())) && (forall|p: (i32, i32)|
                #[trigger] final(self).carni@.dom().contains(p)
                    ==> has_energy(final(self).carni@[p].gv())),
            old(self).epochs > 0 ==> final(self).res.epoch >= 1,
            old(self).epochs == 0 ==> *final(self) == *old(self),
            old(self).epochs > 0 ==> start_attrs_recorded(*final(self), *old(self)),
            final(self).res.die_out == Option::<EatingType>::None && old(self).epochs > 0
                ==> post_reproduction(*final(self)),
    {
        let mut e: u16 = 0;
        let epochs = self.epochs;
        while e < epochs
            invariant_except_break
                self.res.epoch == e,
                self.res.die_out == Option::<EatingType>::None,
                e == 0 ==> *self == *old(self),
                e >= 1 ==> post_reproduction(*self),
            invariant
                self.wf(),
                e <= epochs,
                self.epochs == epochs,
                self.epochs == old(self).epochs,
                self.sim_time == old(self).sim_time,
                self.mutation_chance == old(self).mutation_chance,
                self.config == old(self).config,
                old(self).res.is_fresh(),
                e >= 1 ==> start_attrs_recorded(*self, *old(self)),
            ensures
                self.wf(),
                self.epochs == old(self).epochs,
                self.sim_time == old(self).sim_time,
                self.mutation_chance == old(self).mutation_chance,
                self.config == old(self).config,
                self.res.epoch <= epochs,
                self.res.die_out == Option::<EatingType>::None ==> self.res.epoch == epochs,
                self.res.die_out == Option::Some(EatingType::Carnivore)
                    ==> self.carni.key_seq().len() <= 1,
                self.res.die_out == Option::Some(EatingType::Herbivore)
                    ==> self.herbi.key_seq().len() <= 1 && self.carni.key_seq().len() > 1,
                self.res.die_out != Option::Some(EatingType::Omnivore),
                self.res.die_out is Some ==> (forall|p: (i32, i32)|
                    #[trigger] self.herbi@.dom().contains(p)
                        ==> has_energy(self.herbi@[p].gv())) && (forall|p: (i32, i32)|
                    #[trigger] self.carni@.dom().contains(p)
                        ==> has_energy(self.carni@[p].gv())),
                epochs > 0 ==> self.res.epoch >= 1,
                epochs == 0 ==> *self == *old(self),
                epochs > 0 ==> start_attrs_recorded(*self, *old(self)),
                self.res.die_out == Option::<EatingType>::None && epochs > 0
                    ==> post_reproduction(*self),
            decreases epochs - e,
        {
            self.res.epoch = self.res.epoch + 1;
            // Averaged trait vectors: at the first epoch they are the
            // run's start attributes; every epoch overwrites the end
            // attributes.
            let hl = self.herbi.len();
            if hl > 0 {
                let ht = layer_totals(&self.herbi);
                let ha = average_7_tupel(ht, hl);
                if e == 0 {
                    self.res.average_herbi_start_attributes = ha;
                }
                self.res.average_herbi_end_attributes = ha;
            }
            let cl = self.carni.len();
            if cl > 0 {
                let ct = layer_totals(&self.carni);
                let ca = average_7_tupel(ct, cl);
                if e == 0 {
                    self.res.average_carni_start_attributes = ca;
                }
                self.res.average_carni_end_attributes = ca;
            }
            proof {
                if e == 0 {
                    assert(start_attrs_recorded(*self, *old(self)));
                }
            }
            // The movement steps of this epoch.
            let mut s: u16 = 0;
            let steps = self.sim_time;
            let ghost res0 = self.res;
            while s < steps
                invariant
                    self.wf(),
                    s <= steps,
                    self.res == res0,
                    self.epochs == old(self).epochs,
                    self.epochs == epochs,
                    self.sim_time == old(self).sim_time,
                    self.sim_time == steps,
                    self.mutation_chance == old(self).mutation_chance,
                    self.config == old(self).config,
                    self.res.epoch == e + 1,
                    self.res.die_out == Option::<EatingType>::None,
                    self.res.average_herbi <= e * 65535,
                    self.res.average_carni <= e * 65535,
                decreases steps - s,
            {
                self.simulation_step(rng);
                s = s + 1;
            }
            // Starvation culling, carnivores first.
            let ghost pre_cull_c = self.carni;
            cull_layer(&mut self.carni);
            let ghost pre_cull_h = self.herbi;
            cull_layer(&mut self.herbi);
            proof {
                assert forall|p: (i32, i32)| #[trigger] self.herbi@.dom().contains(p)
                    implies has_energy(self.herbi@[p].gv()) by {
                    assert(self.herbi@[p] == pre_cull_h@[p]);
                }
                assert forall|p: (i32, i32)| #[trigger] self.carni@.dom().contains(p)
                    implies has_energy(self.carni@[p].gv()) by {
                    assert(self.carni@[p] == pre_cull_c@[p]);
                }
            }
            // Population statistics of this epoch.
            self.res.average_carni = self.res.average_carni + self.carni.len() as u64;
            self.res.average_herbi = self.res.average_herbi + self.herbi.len() as u64;
            // Extinction check: the run ends when either species is
            // down to at most one survivor.
            if self.carni.len() <= 1 {
                self.res.die_out = Some(EatingType::Carnivore);
                break;
            }
            if self.herbi.len() <= 1 {
                self.res.die_out = Some(EatingType::Herbivore);
                break;
            }
            // Plant replenishment under the decay schedule.
            self.plants = replenish_plants(&self.config, e, rng);
            // Reproduction: both populations are wholly replaced by
            // offspring of the survivors.
            let herbi_keys = self.herbi.keys();
            let carni_keys = self.carni.keys();
            proof {
                self.herbi.lemma_dom();
                self.carni.lemma_dom();
                assert forall|j: int| 0 <= j < herbi_keys@.len()
                    implies self.herbi@.dom().contains(#[trigger] herbi_keys@[j]) by {
                    assert(self.herbi.key_seq().contains(herbi_keys@[j]));
                }
                assert forall|j: int| 0 <= j < carni_keys@.len()
                    implies self.carni@.dom().contains(#[trigger] carni_keys@[j]) by {
                    assert(self.carni.key_seq().contains(carni_keys@[j]));
                }
            }
            let hchance = sat_add_i64(self.mutation_chance, self.config.herbi_extra_mutation_chance);
            let cchance = sat_add_i64(self.mutation_chance, self.config.carni_extra_mutation_chance);
            let ghost old_herbi = self.herbi;
            let ghost old_carni = self.carni;
            let new_herbi = place_genom(
                &herbi_keys,
                &self.herbi,
                hchance,
                self.config.herbi_num as i32,
                &self.config,
                rng,
            );
            self.herbi = new_herbi;
            proof {
                assert forall|p: (i32, i32)| #[trigger] self.herbi@.dom().contains(p)
                    implies self.herbi@[p].gv().etype == EatingType::Herbivore by {
                    lemma_offspring_herd(
                        self.herbi@[p].gv(),
                        herbi_keys@,
                        old_herbi@,
                        EatingType::Herbivore,
                    );
                }
            }
            let new_carni = place_genom(
                &carni_keys,
                &self.carni,
                cchance,
                self.config.carni_num as i32,
                &self.config,
                rng,
            );
            self.carni = new_carni;
            proof {
                assert forall|p: (i32, i32)| #[trigger] self.carni@.dom().contains(p)
                    implies self.carni@[p].gv().etype == EatingType::Carnivore by {
                    lemma_offspring_herd(
                        self.carni@[p].gv(),
                        carni_keys@,
                        old_carni@,
                        EatingType::Carnivore,
                    );
                }
            }
            e = e + 1;
        }
    }
}

/// The display character of one cell of the world: a carnivore wins
/// over a herbivore, which wins over a plant; an empty cell is an
/// underscore.  Purely presentational.
pub fn cell_char<T: Genome, E: Genome>(
    plants: &Grid<bool>,
    herbi: &Grid<T>,
    carni: &Grid<E>,
    pos: (i32, i32),
) -> (c: char)
    ensures
        c == (if carni@.dom().contains(pos) {
            'C'
        } else if herbi@.dom().contains(pos) {
            'H'
        } else if plants@.dom().contains(pos) {
            '*'
        } else {
            '_'
        }),
{
    if carni.contains_key(&pos) {
        'C'
    } else if herbi.contains_key(&pos) {
        'H'
    } else if plants.contains_key(&pos) {
        '*'
    } else {
        '_'
    }
}

impl<T: Genome, E: Genome> Simulation for BasicSimulation<T, E> {
    open spec fn inv(&self) -> bool {
        self.wf()
    }

    open spec fn ready(&self) -> bool {
        self.res.is_fresh()
    }

    fn run(&mut self, rng: &mut ThreadRng) {
        BasicSimulation::run(self, rng)
    }
}

} // verus!
