//! Per-run statistics: derived reporting artifacts, never authoritative
//! simulation state.

use vstd::prelude::*;

use crate::genome::{Genome, GeneView, genome_wf, EatingType};
use crate::world::Grid;
use crate::engine::div_trunc;

verus! {

/// A named aggregate of the seven heritable values (weight, speed,
/// power, detection and the three eval weights), summed or averaged
/// over a population.
#[derive(Debug, Clone, Copy, PartialEq, Eq, Structural)]
pub struct TraitTotals {
    pub weight: i128,
    pub speed: i128,
    pub power: i128,
    pub detection: i128,
    pub eval1: i128,
    pub eval2: i128,
    pub eval3: i128,
}

/// The mathematical content of a `TraitTotals`.
pub ghost struct GeneTotals {
    pub weight: int,
    pub speed: int,
    pub power: int,
    pub detection: int,
    pub eval1: int,
    pub eval2: int,
    pub eval3: int,
}

impl TraitTotals {
    /// The unbounded-integer view of this aggregate.
    pub open spec fn tv(self) -> GeneTotals {
        GeneTotals {
            weight: self.weight as int,
            speed: self.speed as int,
            power: self.power as int,
            detection: self.detection as int,
            eval1: self.eval1 as int,
            eval2: self.eval2 as int,
            eval3: self.eval3 as int,
        }
    }

    /// The all-zero aggregate.
    pub fn zero() -> (r: Self)
        ensures
            r.tv() == zero_totals(),
    {
        TraitTotals { weight: 0, speed: 0, power: 0, detection: 0, eval1: 0, eval2: 0, eval3: 0 }
    }
}

/// The all-zero aggregate.
pub open spec fn zero_totals() -> GeneTotals {
    GeneTotals { weight: 0, speed: 0, power: 0, detection: 0, eval1: 0, eval2: 0, eval3: 0 }
}

/// `t` plus the seven heritable values of one genome.
pub open spec fn totals_add(t: GeneTotals, g: GeneView) -> GeneTotals {
    GeneTotals {
        weight: t.weight + g.weight,
        speed: t.speed + g.speed,
        power: t.power + g.power,
        detection: t.detection + g.detection,
        eval1: t.eval1 + g.eval1,
        eval2: t.eval2 + g.eval2,
        eval3: t.eval3 + g.eval3,
    }
}

/// The componentwise sum of the heritable values of a layer's genomes.
pub open spec fn totals_of<T: Genome>(s: Seq<((i32, i32), T)>) -> GeneTotals
    decreases s.len(),
{
    if s.len() == 0 {
        zero_totals()
    } else {
        totals_add(totals_of(s.drop_last()), s.last().1.gv())
    }
}

/// The componentwise truncating average of a layer's trait totals over
/// its population size (meaningful for a non-empty layer).
pub open spec fn averaged_totals<T: Genome>(s: Seq<((i32, i32), T)>) -> GeneTotals {
    let t = totals_of(s);
    let n = s.len() as int;
    GeneTotals {
        weight: div_trunc(t.weight, n),
        speed: div_trunc(t.speed, n),
        power: div_trunc(t.power, n),
        detection: div_trunc(t.detection, n),
        eval1: div_trunc(t.eval1, n),
        eval2: div_trunc(t.eval2, n),
        eval3: div_trunc(t.eval3, n),
    }
}

/// Componentwise addition of two aggregates.
pub fn add_7_tupel(a: TraitTotals, b: TraitTotals) -> (r: TraitTotals)
    requires
        i128::MIN <= a.tv().weight + b.tv().weight <= i128::MAX,
        i128::MIN <= a.tv().speed + b.tv().speed <= i128::MAX,
        i128::MIN <= a.tv().power + b.tv().power <= i128::MAX,
        i128::MIN <= a.tv().detection + b.tv().detection <= i128::MAX,
        i128::MIN <= a.tv().eval1 + b.tv().eval1 <= i128::MAX,
        i128::MIN <= a.tv().eval2 + b.tv().eval2 <= i128::MAX,
        i128::MIN <= a.tv().eval3 + b.tv().eval3 <= i128::MAX,
    ensures
        r.tv().weight == a.tv().weight + b.tv().weight,
        r.tv().speed == a.tv().speed + b.tv().speed,
        r.tv().power == a.tv().power + b.tv().power,
        r.tv().detection == a.tv().detection + b.tv().detection,
        r.tv().eval1 == a.tv().eval1 + b.tv().eval1,
        r.tv().eval2 == a.tv().eval2 + b.tv().eval2,
        r.tv().eval3 == a.tv().eval3 + b.tv().eval3,
{
    TraitTotals {
        weight: a.weight + b.weight,
        speed: a.speed + b.speed,
        power: a.power + b.power,
        detection: a.detection + b.detection,
        eval1: a.eval1 + b.eval1,
        eval2: a.eval2 + b.eval2,
        eval3: a.eval3 + b.eval3,
    }
}

/// Truncating division of a (bounded) `i128` by a positive count.
fn div_count(a: i128, d: usize) -> (r: i128)
    requires
        d > 0,
        -170_141_183_460_469_231_731_687_303_715_884_105_727 <= a,
    ensures
        r as int == div_trunc(a as int, d as int),
{
    if a >= 0 {
        ((a as u128) / (d as u128)) as i128
    } else {
        let m: u128 = (-a) as u128;
        -((m / (d as u128)) as i128)
    }
}

/// The componentwise truncating average of an aggregate over `b` genomes.
pub fn average_7_tupel(a: TraitTotals, b: usize) -> (r: TraitTotals)
    requires
        b > 0,
        -170_141_183_460_469_231_731_687_303_715_884_105_727 <= a.tv().weight,
        -170_141_183_460_469_231_731_687_303_715_884_105_727 <= a.tv().speed,
        -170_141_183_460_469_231_731_687_303_715_884_105_727 <= a.tv().power,
        -170_141_183_460_469_231_731_687_303_715_884_105_727 <= a.tv().detection,
        -170_141_183_460_469_231_731_687_303_715_884_105_727 <= a.tv().eval1,
        -170_141_183_460_469_231_731_687_303_715_884_105_727 <= a.tv().eval2,
        -170_141_183_460_469_231_731_687_303_715_884_105_727 <= a.tv().eval3,
    ensures
        r.tv().weight == div_trunc(a.tv().weight, b as int),
        r.tv().speed == div_trunc(a.tv().speed, b as int),
        r.tv().power == div_trunc(a.tv().power, b as int),
        r.tv().detection == div_trunc(a.tv().detection, b as int),
        r.tv().eval1 == div_trunc(a.tv().eval1, b as int),
        r.tv().eval2 == div_trunc(a.tv().eval2, b as int),
        r.tv().eval3 == div_trunc(a.tv().eval3, b as int),
{
    TraitTotals {
        weight: div_count(a.weight, b),
        speed: div_count(a.speed, b),
        power: div_count(a.power, b),
        detection: div_count(a.detection, b),
        eval1: div_count(a.eval1, b),
        eval2: div_count(a.eval2, b),
        eval3: div_count(a.eval3, b),
    }
}

/// Sum the heritable values of every genome of a layer.
pub fn layer_totals<T: Genome>(layer: &Grid<T>) -> (t: TraitTotals)
    requires
        layer.wf(),
        forall|p: (i32, i32)| #[trigger] layer@.dom().contains(p) ==> genome_wf(layer@[p].gv()),
    ensures
        t.tv() == totals_of(layer.entry_seq()),
        -(layer.entry_seq().len() as int) * 1_000_000_000 <= t.tv().weight
            <= (layer.entry_seq().len() as int) * 1_000_000_000,
        -(layer.entry_seq().len() as int) * 1_000_000_000 <= t.tv().speed
            <= (layer.entry_seq().len() as int) * 1_000_000_000,
        -(layer.entry_seq().len() as int) * 1_000_000_000 <= t.tv().power
            <= (layer.entry_seq().len() as int) * 1_000_000_000,
        -(layer.entry_seq().len() as int) * 1_000_000_000 <= t.tv().detection
            <= (layer.entry_seq().len() as int) * 1_000_000_000,
        -(layer.entry_seq().len() as int) * 1_000_000_000 <= t.tv().eval1
            <= (layer.entry_seq().len() as int) * 1_000_000_000,
        -(layer.entry_seq().len() as int) * 1_000_000_000 <= t.tv().eval2
            <= (layer.entry_seq().len() as int) * 1_000_000_000,
        -(layer.entry_seq().len() as int) * 1_000_000_000 <= t.tv().eval3
            <= (layer.entry_seq().len() as int) * 1_000_000_000,
{
    let mut t = TraitTotals::zero();
    let n = layer.num_entries();
    for i in 0..n
        invariant
            layer.wf(),
            forall|p: (i32, i32)| #[trigger] layer@.dom().contains(p) ==> genome_wf(layer@[p].gv()),
            n == layer.entry_seq().len(),
            t.tv() == totals_of(layer.entry_seq().take(i as int)),
            -(i as int) * 1_000_000_000 <= t.tv().weight <= (i as int) * 1_000_000_000,
            -(i as int) * 1_000_000_000 <= t.tv().speed <= (i as int) * 1_000_000_000,
            -(i as int) * 1_000_000_000 <= t.tv().power <= (i as int) * 1_000_000_000,
            -(i as int) * 1_000_000_000 <= t.tv().detection <= (i as int) * 1_000_000_000,
            -(i as int) * 1_000_000_000 <= t.tv().eval1 <= (i as int) * 1_000_000_000,
            -(i as int) * 1_000_000_000 <= t.tv().eval2 <= (i as int) * 1_000_000_000,
            -(i as int) * 1_000_000_000 <= t.tv().eval3 <= (i as int) * 1_000_000_000,
    {
        let (pos, g) = layer.entry(i);
        proof {
            layer.lemma_entry_view(i as int);
            assert(layer@.dom().contains(pos));
        }
        t.weight = t.weight + g.get_weight() as i128;
        t.speed = t.speed + g.get_speed() as i128;
        t.power = t.power + g.get_power() as i128;
        t.detection = t.detection + g.get_detection_range() as i128;
        let e1 = match g.get_eval(1) {
            Ok(w) => w,
            Err(_) => 0,
        };
        let e2 = match g.get_eval(2) {
            Ok(w) => w,
            Err(_) => 0,
        };
        let e3 = match g.get_eval(3) {
            Ok(w) => w,
            Err(_) => 0,
        };
        t.eval1 = t.eval1 + e1 as i128;
        t.eval2 = t.eval2 + e2 as i128;
        t.eval3 = t.eval3 + e3 as i128;
        proof {
            let s = layer.entry_seq();
            assert(s.take(i as int + 1).drop_last() =~= s.take(i as int));
            assert(s.take(i as int + 1).last() == s[i as int]);
        }
    }
    proof {
        assert(layer.entry_seq().take(n as int) =~= layer.entry_seq());
    }
    t
}

/// Derived per-run statistics: the epoch counter, summed population
/// counts, the extinguished species (if any), and averaged trait
/// aggregates at the start and end of the run.
#[derive(Debug, Clone, Copy)]
pub struct SimulationResult {
    pub epoch: u16,
    pub average_herbi: u64,
    pub average_carni: u64,
    pub die_out: Option<EatingType>,
    pub average_herbi_start_attributes: TraitTotals,
    pub average_carni_start_attributes: TraitTotals,
    pub average_herbi_end_attributes: TraitTotals,
    pub average_carni_end_attributes: TraitTotals,
}

impl SimulationResult {
    /// The population sums stay small enough to divide by the epoch
    /// counter without overflow.
    pub open spec fn wf(self) -> bool {
        &&& self.average_herbi <= self.epoch * 65535
        &&& self.average_carni <= self.epoch * 65535
    }

    /// The record of a run that has not started: every counter and
    /// every trait aggregate is zero and no species is extinguished.
    pub open spec fn is_fresh(self) -> bool {
        &&& self.epoch == 0
        &&& self.average_herbi == 0
        &&& self.average_carni == 0
        &&& self.die_out == Option::<EatingType>::None
        &&& self.average_herbi_start_attributes.tv() == zero_totals()
        &&& self.average_carni_start_attributes.tv() == zero_totals()
        &&& self.average_herbi_end_attributes.tv() == zero_totals()
        &&& self.average_carni_end_attributes.tv() == zero_totals()
    }

    /// A zeroed record for a run that has not started.
    pub fn new() -> (r: SimulationResult)
        ensures
            r.wf(),
            r.is_fresh(),
    {
        SimulationResult {
            epoch: 0,
            average_herbi: 0,
            average_carni: 0,
            die_out: None,
            average_herbi_start_attributes: TraitTotals::zero(),
            average_carni_start_attributes: TraitTotals::zero(),
            average_herbi_end_attributes: TraitTotals::zero(),
            average_carni_end_attributes: TraitTotals::zero(),
        }
    }

    /// The mean herbivore population over the completed epochs.
    pub fn get_average_herbi(&self) -> (r: u64)
        requires
            self.epoch > 0,
        ensures
            r == self.average_herbi as int / self.epoch as int,
    {
        self.average_herbi / (self.epoch as u64)
    }

    /// The mean carnivore population over the completed epochs.
    pub fn get_average_carni(&self) -> (r: u64)
        requires
            self.epoch > 0,
        ensures
            r == self.average_carni as int / self.epoch as int,
    {
        self.average_carni / (self.epoch as u64)
    }

    /// The averaged herbivore traits at the start of the run.
    pub fn get_ahsa(&self) -> (r: TraitTotals)
        ensures
            r == self.average_herbi_start_attributes,
    {
        let a = self.average_herbi_start_attributes;
        self.average_7tupel(a)
    }

    /// The averaged carnivore traits at the start of the run.
    pub fn get_acsa(&self) -> (r: TraitTotals)
        ensures
            r == self.average_carni_start_attributes,
    {
        let a = self.average_carni_start_attributes;
        self.average_7tupel(a)
    }

    /// The averaged herbivore traits at the end of the run.
    pub fn get_ahea(&self) -> (r: TraitTotals)
        ensures
            r == self.average_herbi_end_attributes,
    {
        let a = self.average_herbi_end_attributes;
        self.average_7tupel(a)
    }

    /// The averaged carnivore traits at the end of the run.
    pub fn get_acea(&self) -> (r: TraitTotals)
        ensures
            r == self.average_carni_end_attributes,
    {
        let a = self.average_carni_end_attributes;
        self.average_7tupel(a)
    }

    /// The stored aggregates are already averaged when they are
    /// recorded, so this returns its argument unchanged.
    pub fn average_7tupel(&self, a: TraitTotals) -> (r: TraitTotals)
        ensures
            r == a,
    {
        a
    }
}

} // verus!
