use ecosim::genome::{BasicGenome, EatingType};
use ecosim::stats::{add_7_tupel, average_7_tupel, layer_totals, SimulationResult, TraitTotals};
use ecosim::world::Grid;

fn totals(w: i128, s: i128, p: i128, d: i128, e1: i128, e2: i128, e3: i128) -> TraitTotals {
    TraitTotals { weight: w, speed: s, power: p, detection: d, eval1: e1, eval2: e2, eval3: e3 }
}

#[test]
fn add_7_tupel_componentwise() {
    let a = totals(1, 2, 3, 4, 5, -6, 7);
    let b = totals(10, 20, 30, 40, -50, 60, 70);
    let r = add_7_tupel(a, b);
    assert_eq!(r, totals(11, 22, 33, 44, -45, 54, 77));
}

#[test]
fn average_7_tupel_truncates_toward_zero() {
    let a = totals(10, 11, -11, 9, 7, -7, 0);
    let r = average_7_tupel(a, 3);
    assert_eq!(r, totals(3, 3, -3, 3, 2, -2, 0));
}

#[test]
fn layer_totals_sums_all_genomes() {
    let mut layer: Grid<BasicGenome> = Grid::new();
    layer.insert((0, 0), BasicGenome::with_genes(EatingType::Herbivore, 1100, 2200, 3300, 4400, 11, 22, 33));
    layer.insert((1, 1), BasicGenome::with_genes(EatingType::Herbivore, 1500, 2600, 3700, 4800, -44, -55, -66));
    let t = layer_totals(&layer);
    assert_eq!(t, totals(2600, 4800, 7000, 9200, -33, -33, -33));
}

#[test]
fn fresh_result_is_zeroed() {
    let r = SimulationResult::new();
    assert_eq!(r.epoch, 0);
    assert_eq!(r.average_herbi, 0);
    assert_eq!(r.average_carni, 0);
    assert_eq!(r.die_out, None);
    assert_eq!(r.average_herbi_start_attributes, totals(0, 0, 0, 0, 0, 0, 0));
    assert_eq!(r.average_carni_end_attributes, totals(0, 0, 0, 0, 0, 0, 0));
}

#[test]
fn averaged_attribute_getters_return_stored_values() {
    let mut r = SimulationResult::new();
    r.average_herbi_start_attributes = totals(1, 2, 3, 4, 5, 6, 7);
    r.average_carni_start_attributes = totals(2, 3, 4, 5, 6, 7, 8);
    r.average_herbi_end_attributes = totals(3, 4, 5, 6, 7, 8, 9);
    r.average_carni_end_attributes = totals(4, 5, 6, 7, 8, 9, 10);
    assert_eq!(r.get_ahsa(), totals(1, 2, 3, 4, 5, 6, 7));
    assert_eq!(r.get_acsa(), totals(2, 3, 4, 5, 6, 7, 8));
    assert_eq!(r.get_ahea(), totals(3, 4, 5, 6, 7, 8, 9));
    assert_eq!(r.get_acea(), totals(4, 5, 6, 7, 8, 9, 10));
    assert_eq!(r.average_7tupel(totals(9, 9, 9, 9, 9, 9, 9)), totals(9, 9, 9, 9, 9, 9, 9));
}
