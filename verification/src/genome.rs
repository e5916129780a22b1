//! Heritable genomes and their genetic operators.
//!
//! Continuous traits (weight, speed, power, detection range, energy) are
//! fixed-point values in milli-units: a stored `1000` means `1.0`.  The
//! three eval weights are plain signed integers.  Every trait is kept
//! inside a bounded range (`genome_wf`) so that all arithmetic over
//! genomes is proved free of overflow.

use vstd::prelude::*;

use crate::rng::rng_range_i64;
use crate::sat_add_spec;
use crate::sat_add_i64;
use rand::rngs::ThreadRng;

verus! {

/// Smallest admissible weight, 0.1 in milli-units.
pub const WEIGHT_FLOOR: i64 = 100;

/// Upper bound kept on every continuous trait (a representable ceiling of
/// the fixed-point encoding, far above anything the simulation reaches).
pub const TRAIT_CAP: i64 = 1_000_000_000;

/// Bound kept on the magnitude of each eval weight.
pub const EVAL_CAP: i64 = 1_000_000_000;

/// A mutation chance of `c` means a probability of about `c / 1000`.
pub const MUTATION_DIVISION: i64 = 1000;

/// Largest perturbation of a continuous trait in one mutation (1.0).
pub const TRAIT_DELTA: i64 = 1000;

/// Largest perturbation of an eval weight in one mutation.
pub const EVAL_DELTA: i64 = 50;

/// Exclusive upper bound of the randomized initial continuous traits (5.0).
pub const INIT_TRAIT_MAX: i64 = 5000;

/// Initial eval weights are drawn from `-INIT_EVAL_MAX .. INIT_EVAL_MAX`.
pub const INIT_EVAL_MAX: i64 = 1000;

/// What an agent eats.
#[derive(Debug, Clone, Copy, PartialEq, Eq, Structural)]
pub enum EatingType {
    Carnivore,
    Herbivore,
    Omnivore,
}

/// The mathematical content of a genome: every heritable trait plus the
/// energy accumulator, as unbounded integers.  Contracts of the genetic
/// operators are stated over this view.
pub ghost struct GeneView {
    pub etype: EatingType,
    pub weight: int,
    pub speed: int,
    pub power: int,
    pub detection: int,
    pub energy: int,
    pub eval1: int,
    pub eval2: int,
    pub eval3: int,
}

/// Well-formedness of a genome: each trait sits in its admissible range
/// and energy is a non-negative representable value.
pub open spec fn genome_wf(g: GeneView) -> bool {
    &&& WEIGHT_FLOOR <= g.weight <= TRAIT_CAP
    &&& 0 <= g.speed <= TRAIT_CAP
    &&& 0 <= g.power <= TRAIT_CAP
    &&& 0 <= g.detection <= TRAIT_CAP
    &&& 0 <= g.energy <= i64::MAX
    &&& -EVAL_CAP <= g.eval1 <= EVAL_CAP
    &&& -EVAL_CAP <= g.eval2 <= EVAL_CAP
    &&& -EVAL_CAP <= g.eval3 <= EVAL_CAP
}

/// `v` clamped into the interval `[lo, hi]`.
pub open spec fn clamped(lo: int, hi: int, v: int) -> int {
    if v < lo {
        lo
    } else if v > hi {
        hi
    } else {
        v
    }
}

/// `nv` is reachable from `ov` by adding a delta within
/// `[-delta, delta]` and clamping the sum into `[lo, hi]`.
pub open spec fn gene_perturbed(ov: int, nv: int, delta: int, lo: int, hi: int) -> bool {
    clamped(lo, hi, ov - delta) <= nv <= clamped(lo, hi, ov + delta)
}

/// A continuous trait moved by at most 1.0 and was clamped to its floor.
pub open spec fn trait_perturbed(ov: int, nv: int, floor: int) -> bool {
    gene_perturbed(ov, nv, TRAIT_DELTA as int, floor, TRAIT_CAP as int)
}

/// An eval weight moved by at most `EVAL_DELTA` and was kept in range.
pub open spec fn eval_perturbed(ov: int, nv: int) -> bool {
    gene_perturbed(ov, nv, EVAL_DELTA as int, -EVAL_CAP as int, EVAL_CAP as int)
}

/// What one call of `mutate` may do: diet class and energy are untouched,
/// and at most one of the seven genes moved, by a bounded, clamped delta.
pub open spec fn mutates_to(o: GeneView, n: GeneView) -> bool {
    &&& n.etype == o.etype
    &&& n.energy == o.energy
    &&& {
        ||| n == o
        ||| (trait_perturbed(o.weight, n.weight, WEIGHT_FLOOR as int) && n.speed == o.speed
            && n.power == o.power && n.detection == o.detection && n.eval1 == o.eval1
            && n.eval2 == o.eval2 && n.eval3 == o.eval3)
        ||| (trait_perturbed(o.speed, n.speed, 0) && n.weight == o.weight && n.power == o.power
            && n.detection == o.detection && n.eval1 == o.eval1 && n.eval2 == o.eval2
            && n.eval3 == o.eval3)
        ||| (trait_perturbed(o.power, n.power, 0) && n.weight == o.weight && n.speed == o.speed
            && n.detection == o.detection && n.eval1 == o.eval1 && n.eval2 == o.eval2
            && n.eval3 == o.eval3)
        ||| (trait_perturbed(o.detection, n.detection, 0) && n.weight == o.weight
            && n.speed == o.speed && n.power == o.power && n.eval1 == o.eval1
            && n.eval2 == o.eval2 && n.eval3 == o.eval3)
        ||| (eval_perturbed(o.eval1, n.eval1) && n.weight == o.weight && n.speed == o.speed
            && n.power == o.power && n.detection == o.detection && n.eval2 == o.eval2
            && n.eval3 == o.eval3)
        ||| (eval_perturbed(o.eval2, n.eval2) && n.weight == o.weight && n.speed == o.speed
            && n.power == o.power && n.detection == o.detection && n.eval1 == o.eval1
            && n.eval3 == o.eval3)
        ||| (eval_perturbed(o.eval3, n.eval3) && n.weight == o.weight && n.speed == o.speed
            && n.power == o.power && n.detection == o.detection && n.eval1 == o.eval1
            && n.eval2 == o.eval2)
    }
}

/// The fixed recombination mask: the offspring takes weight, power and
/// eval weight 2 from `a`, speed, detection and eval weights 1 and 3 from
/// `b`; the diet class comes from `a` and energy starts at zero.
pub open spec fn crossover_gv(a: GeneView, b: GeneView) -> GeneView {
    GeneView {
        etype: a.etype,
        weight: a.weight,
        speed: b.speed,
        power: a.power,
        detection: b.detection,
        energy: 0,
        eval1: b.eval1,
        eval2: a.eval2,
        eval3: b.eval3,
    }
}

/// `n` is `o` carried forward through a simulation step: the same
/// heritable traits and diet class, with energy not decreased (energy
/// only ever grows, through foraging and predation).
pub open spec fn evolves_from(o: GeneView, n: GeneView) -> bool {
    &&& n.etype == o.etype
    &&& n.weight == o.weight
    &&& n.speed == o.speed
    &&& n.power == o.power
    &&& n.detection == o.detection
    &&& n.eval1 == o.eval1
    &&& n.eval2 == o.eval2
    &&& n.eval3 == o.eval3
    &&& n.energy >= o.energy
}

/// `g` after a saturating energy gain of `e`.
pub open spec fn sat_add_spec_gv(g: GeneView, e: int) -> GeneView {
    GeneView { energy: sat_add_spec(g.energy, e), ..g }
}

/// An agent has enough energy when the accumulated energy covers a fifth
/// (the 0.2 weighting) of the sum of its four continuous traits.
pub open spec fn has_energy(g: GeneView) -> bool {
    5 * g.energy >= g.weight + g.power + g.detection + g.speed
}

/// Errors of the engine.  `InvalidIndex` reports an eval-weight selector
/// outside `{1, 2, 3}`; `BadConfig` reports a degenerate
/// construction-time configuration.
#[derive(Debug, Clone, Copy, PartialEq, Eq)]
pub enum SimError {
    InvalidIndex(u8),
    BadConfig,
}

/// Capability interface of a genome: construction, the genetic operators,
/// the energy economy and the trait accessors.  Contracts are stated over
/// the mathematical view `gv`.
pub trait Genome: Sized {
    /// The mathematical content of this genome.
    spec fn gv(&self) -> GeneView;

    /// A randomized genome of the given diet class with zero energy.
    fn new(etype: EatingType, rng: &mut ThreadRng) -> (g: Self)
        ensures
            genome_wf(g.gv()),
            g.gv().etype == etype,
            g.gv().energy == 0,
            WEIGHT_FLOOR <= g.gv().weight < INIT_TRAIT_MAX,
            0 <= g.gv().speed < INIT_TRAIT_MAX,
            0 <= g.gv().power < INIT_TRAIT_MAX,
            0 <= g.gv().detection < INIT_TRAIT_MAX,
            -INIT_EVAL_MAX <= g.gv().eval1 < INIT_EVAL_MAX,
            -INIT_EVAL_MAX <= g.gv().eval2 < INIT_EVAL_MAX,
            -INIT_EVAL_MAX <= g.gv().eval3 < INIT_EVAL_MAX,
    ;

    /// Perturb at most one gene, with probability about `chance / 1000`;
    /// afterwards every trait is clamped back into its admissible range.
    fn mutate(&mut self, chance: i64, rng: &mut ThreadRng)
        requires
            genome_wf(old(self).gv()),
        ensures
            genome_wf(final(self).gv()),
            mutates_to(old(self).gv(), final(self).gv()),
    ;

    /// The deterministic, fixed-mask recombination of two parents.
    fn crossover(&self, other: &Self) -> (r: Self)
        ensures
            r.gv() == crossover_gv(self.gv(), other.gv()),
    ;

    /// The detection range trait, in milli-units.
    fn get_detection_range(&self) -> (r: i64)
        ensures
            r == self.gv().detection,
    ;

    /// Add `energy` to the accumulator, saturating at the representable top.
    fn increase_energy(&mut self, energy: i64)
        requires
            energy >= 0,
        ensures
            final(self).gv() == (GeneView { energy: sat_add_spec(old(self).gv().energy, energy as int), ..old(self).gv() }),
    ;

    /// Whether the accumulated energy covers the trait-weighted cost.
    fn has_enough_energy(&self) -> (r: bool)
        ensures
            r == has_energy(self.gv()),
    ;

    /// The weight trait, in milli-units.
    fn get_weight(&self) -> (r: i64)
        ensures
            r == self.gv().weight,
    ;

    /// The power trait, in milli-units.
    fn get_power(&self) -> (r: i64)
        ensures
            r == self.gv().power,
    ;

    /// The speed trait, in milli-units.
    fn get_speed(&self) -> (r: i64)
        ensures
            r == self.gv().speed,
    ;

    /// The eval weight selected by `num`, for `num` in `{1, 2, 3}`; any
    /// other selector is an `InvalidIndex` error.
    fn get_eval(&self, num: u8) -> (r: Result<i64, SimError>)
        ensures
            num == 1 ==> r == Ok::<i64, SimError>(self.gv().eval1 as i64),
            num == 2 ==> r == Ok::<i64, SimError>(self.gv().eval2 as i64),
            num == 3 ==> r == Ok::<i64, SimError>(self.gv().eval3 as i64),
            !(1 <= num <= 3) ==> r == Err::<i64, SimError>(SimError::InvalidIndex(num)),
    ;
}

/// The concrete genome of the engine.
#[derive(Debug, Clone)]
pub struct BasicGenome {
    etype: EatingType,
    weight: i64,
    speed: i64,
    power: i64,
    detection: i64,
    energy: i64,
    eval_weight_1: i64,
    eval_weight_2: i64,
    eval_weight_3: i64,
}

impl BasicGenome {
    /// A genome with the given genes and zero energy, for building exact
    /// scenarios.
    pub fn with_genes(
        etype: EatingType,
        weight: i64,
        speed: i64,
        power: i64,
        detection: i64,
        eval1: i64,
        eval2: i64,
        eval3: i64,
    ) -> (g: Self)
        requires
            WEIGHT_FLOOR <= weight <= TRAIT_CAP,
            0 <= speed <= TRAIT_CAP,
            0 <= power <= TRAIT_CAP,
            0 <= detection <= TRAIT_CAP,
            -EVAL_CAP <= eval1 <= EVAL_CAP,
            -EVAL_CAP <= eval2 <= EVAL_CAP,
            -EVAL_CAP <= eval3 <= EVAL_CAP,
        ensures
            genome_wf(g.gv()),
            g.gv() == (GeneView {
                etype,
                weight: weight as int,
                speed: speed as int,
                power: power as int,
                detection: detection as int,
                energy: 0,
                eval1: eval1 as int,
                eval2: eval2 as int,
                eval3: eval3 as int,
            }),
    {
        BasicGenome {
            etype,
            weight,
            speed,
            power,
            detection,
            energy: 0,
            eval_weight_1: eval1,
            eval_weight_2: eval2,
            eval_weight_3: eval3,
        }
    }

    /// The energy accumulated so far, in milli-units.
    pub fn get_energy(&self) -> (r: i64)
        ensures
            r == self.gv().energy,
    {
        self.energy
    }

    /// The diet class of this genome.
    pub fn get_etype(&self) -> (r: EatingType)
        ensures
            r == self.gv().etype,
    {
        self.etype
    }
}

impl Genome for BasicGenome {
    closed spec fn gv(&self) -> GeneView {
        GeneView {
            etype: self.etype,
            weight: self.weight as int,
            speed: self.speed as int,
            power: self.power as int,
            detection: self.detection as int,
            energy: self.energy as int,
            eval1: self.eval_weight_1 as int,
            eval2: self.eval_weight_2 as int,
            eval3: self.eval_weight_3 as int,
        }
    }

    fn new(etype: EatingType, rng: &mut ThreadRng) -> (g: Self) {
        BasicGenome {
            etype,
            weight: rng_range_i64(rng, WEIGHT_FLOOR, INIT_TRAIT_MAX),
            speed: rng_range_i64(rng, 0, INIT_TRAIT_MAX),
            power: rng_range_i64(rng, 0, INIT_TRAIT_MAX),
            detection: rng_range_i64(rng, 0, INIT_TRAIT_MAX),
            energy: 0,
            eval_weight_1: rng_range_i64(rng, -INIT_EVAL_MAX, INIT_EVAL_MAX),
            eval_weight_2: rng_range_i64(rng, -INIT_EVAL_MAX, INIT_EVAL_MAX),
            eval_weight_3: rng_range_i64(rng, -INIT_EVAL_MAX, INIT_EVAL_MAX),
        }
    }

    fn mutate(&mut self, chance: i64, rng: &mut ThreadRng) {
        if chance < rng_range_i64(rng, 0, MUTATION_DIVISION) {
            return ;
        }
        let choosen = rng_range_i64(rng, 0, 7);
        if choosen == 0 {
            self.weight = mutate_trait_gene(self.weight, WEIGHT_FLOOR, rng);
        } else if choosen == 1 {
            self.speed = mutate_trait_gene(self.speed, 0, rng);
        } else if choosen == 2 {
            self.power = mutate_trait_gene(self.power, 0, rng);
        } else if choosen == 3 {
            self.detection = mutate_trait_gene(self.detection, 0, rng);
        } else if choosen == 4 {
            self.eval_weight_1 = mutate_eval_gene(self.eval_weight_1, rng);
        } else if choosen == 5 {
            self.eval_weight_2 = mutate_eval_gene(self.eval_weight_2, rng);
        } else if choosen == 6 {
            self.eval_weight_3 = mutate_eval_gene(self.eval_weight_3, rng);
        }
    }

    fn crossover(&self, other: &Self) -> (r: Self) {
        BasicGenome {
            etype: self.etype,
            weight: self.weight,
            speed: other.speed,
            power: self.power,
            detection: other.detection,
            energy: 0,
            eval_weight_1: other.eval_weight_1,
            eval_weight_2: self.eval_weight_2,
            eval_weight_3: other.eval_weight_3,
        }
    }

    fn get_detection_range(&self) -> (r: i64) {
        self.detection
    }

    fn increase_energy(&mut self, energy: i64) {
        self.energy = sat_add_i64(self.energy, energy);
    }

    fn has_enough_energy(&self) -> (r: bool) {
        5 * (self.energy as i128) >= (self.weight as i128) + (self.power as i128)
            + (self.detection as i128) + (self.speed as i128)
    }

    fn get_power(&self) -> (r: i64) {
        self.power
    }

    fn get_speed(&self) -> (r: i64) {
        self.speed
    }

    fn get_weight(&self) -> (r: i64) {
        self.weight
    }

    fn get_eval(&self, num: u8) -> (r: Result<i64, SimError>) {
        if num == 1 {
            Ok(self.eval_weight_1)
        } else if num == 2 {
            Ok(self.eval_weight_2)
        } else if num == 3 {
            Ok(self.eval_weight_3)
        } else {
            Err(SimError::InvalidIndex(num))
        }
    }
}

/// Clamp `v` into `[lo, hi]`.
pub fn clamp_i64(lo: i64, hi: i64, v: i64) -> (r: i64)
    requires
        lo <= hi,
    ensures
        r == clamped(lo as int, hi as int, v as int),
{
    if v < lo {
        lo
    } else if v > hi {
        hi
    } else {
        v
    }
}

/// Perturb a continuous trait by a uniform delta in
/// `[-TRAIT_DELTA, TRAIT_DELTA]`, clamping the sum into `[floor, TRAIT_CAP]`.
fn mutate_trait_gene(gene: i64, floor: i64, rng: &mut ThreadRng) -> (r: i64)
    requires
        0 <= floor <= gene <= TRAIT_CAP,
    ensures
        trait_perturbed(gene as int, r as int, floor as int),
        floor <= r <= TRAIT_CAP,
{
    let delta = rng_range_i64(rng, -TRAIT_DELTA, TRAIT_DELTA + 1);
    clamp_i64(floor, TRAIT_CAP, gene + delta)
}

/// Perturb an eval weight by a uniform delta in `[-EVAL_DELTA, EVAL_DELTA]`,
/// clamping the sum into `[-EVAL_CAP, EVAL_CAP]`.
fn mutate_eval_gene(gene: i64, rng: &mut ThreadRng) -> (r: i64)
    requires
        -EVAL_CAP <= gene <= EVAL_CAP,
    ensures
        eval_perturbed(gene as int, r as int),
        -EVAL_CAP <= r <= EVAL_CAP,
{
    let delta = rng_range_i64(rng, -EVAL_DELTA, EVAL_DELTA + 1);
    clamp_i64(-EVAL_CAP, EVAL_CAP, gene + delta)
}

} // verus!
