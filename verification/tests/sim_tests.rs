use ecosim::genome::{BasicGenome, EatingType, Genome, SimError};
use ecosim::sim::{
    cell_char, cull_layer, gen_pos, gen_vec_pos, place_genom, replenish_plants, BasicSimulation,
    Config, Simulation,
};
use ecosim::stats::SimulationResult;
use ecosim::world::Grid;

fn empty_sim(config: Config) -> BasicSimulation<BasicGenome, BasicGenome> {
    BasicSimulation {
        epochs: 1,
        sim_time: 1,
        mutation_chance: 0,
        config,
        plants: Grid::new(),
        herbi: Grid::new(),
        carni: Grid::new(),
        res: SimulationResult::new(),
    }
}

#[test]
fn config_default_is_valid() {
    let cfg = Config::default();
    assert_eq!(cfg.validated(), Ok(cfg));
    assert_eq!(cfg.plant_num, 300);
    assert_eq!(cfg.herbi_num, 100);
    assert_eq!(cfg.carni_num, 100);
}

#[test]
fn config_rejects_degenerate_box() {
    let cfg = Config { x_lo: 10, x_hi: 10, ..Config::default() };
    assert_eq!(cfg.validated(), Err(SimError::BadConfig));
    let cfg = Config { plant_energy: -1, ..Config::default() };
    assert_eq!(cfg.validated(), Err(SimError::BadConfig));
}

#[test]
fn gen_pos_stays_in_box() {
    let mut rng = rand::thread_rng();
    let cfg = Config::default();
    for _ in 0..200 {
        let (x, y) = gen_pos(&mut rng, &cfg);
        assert!((-50..51).contains(&x));
        assert!((-50..51).contains(&y));
    }
}

#[test]
fn gen_vec_pos_below_max() {
    let mut rng = rand::thread_rng();
    for _ in 0..200 {
        assert!(gen_vec_pos(&mut rng, 7) < 7);
    }
}

#[test]
fn culling_keeps_exactly_the_fed() {
    let mut layer: Grid<BasicGenome> = Grid::new();
    // Needs energy 20 (a fifth of weight 100); has 25.
    let mut fed = BasicGenome::with_genes(EatingType::Herbivore, 100, 0, 0, 0, 0, 0, 0);
    fed.increase_energy(25);
    // Needs 20; has 19.
    let mut starved = BasicGenome::with_genes(EatingType::Herbivore, 100, 0, 0, 0, 0, 0, 0);
    starved.increase_energy(19);
    layer.insert((0, 0), fed);
    layer.insert((1, 1), starved);
    cull_layer(&mut layer);
    assert_eq!(layer.len(), 1);
    assert!(layer.contains_key(&(0, 0)));
    assert!(!layer.contains_key(&(1, 1)));
    let survivor = layer.get(&(0, 0)).unwrap();
    assert!(survivor.has_enough_energy());
    assert_eq!(survivor.get_energy(), 25);
}

#[test]
fn predation_on_shared_cell_without_contest() {
    let mut rng = rand::thread_rng();
    let mut sim = empty_sim(Config { strength_contest: false, ..Config::default() });
    // A weak but fast herbivore shares a cell with a powerless carnivore:
    // with the contest disabled the kill is guaranteed, before any move.
    sim.herbi.insert((5, 5), BasicGenome::with_genes(EatingType::Herbivore, 1500, 1000, 4000, 0, 0, 0, 0));
    sim.carni.insert((5, 5), BasicGenome::with_genes(EatingType::Carnivore, 100, 0, 0, 0, 0, 0, 0));
    sim.simulation_step(&mut rng);
    assert_eq!(sim.herbi.len(), 0);
    assert_eq!(sim.carni.len(), 1);
    // Energy gained is exactly prey weight times meat efficiency.
    assert_eq!(sim.carni.get(&(5, 5)).unwrap().get_energy(), 1500 * 2);
}

#[test]
fn predation_contest_spares_the_stronger_prey() {
    let mut rng = rand::thread_rng();
    let mut sim = empty_sim(Config { strength_contest: true, ..Config::default() });
    // The herbivore is at least as powerful as the carnivore, so the
    // contest fails and it survives the step.
    sim.herbi.insert((5, 5), BasicGenome::with_genes(EatingType::Herbivore, 1500, 0, 4000, 0, 0, 0, 0));
    sim.carni.insert((5, 5), BasicGenome::with_genes(EatingType::Carnivore, 100, 0, 4000, 0, 0, 0, 0));
    sim.simulation_step(&mut rng);
    assert_eq!(sim.herbi.len(), 1);
    assert_eq!(sim.carni.get(&(5, 5)).unwrap().get_energy(), 0);
}

#[test]
fn foraging_eats_plant_and_gains_exact_energy() {
    let mut rng = rand::thread_rng();
    let mut sim = empty_sim(Config::default());
    // Zero detection: the herbivore steps onto a random neighbor; every
    // neighbor holds a plant, so wherever it goes it forages.
    sim.herbi.insert((0, 0), BasicGenome::with_genes(EatingType::Herbivore, 100, 1000, 0, 0, 0, 0, 0));
    for p in [(-1, 0), (1, 0), (0, -1), (0, 1)] {
        sim.plants.insert(p, true);
    }
    sim.simulation_step(&mut rng);
    assert_eq!(sim.plants.len(), 3);
    assert_eq!(sim.herbi.len(), 1);
    let pos = *sim.herbi.keys().first().unwrap();
    assert!([(-1, 0), (1, 0), (0, -1), (0, 1)].contains(&pos));
    // The plant at the new position is gone and its energy was gained.
    assert!(!sim.plants.contains_key(&pos));
    assert_eq!(sim.herbi.get(&pos).unwrap().get_energy(), 1000);
}

#[test]
fn step_preserves_carnivore_count_and_layer_uniqueness() {
    let mut rng = rand::thread_rng();
    let mut sim = empty_sim(Config::default());
    for i in 0..10 {
        sim.herbi.insert((i, 0), BasicGenome::with_genes(EatingType::Herbivore, 100, 2000, 5000, 2000, -100, 50, 300));
        sim.carni.insert((i, 20), BasicGenome::with_genes(EatingType::Carnivore, 100, 2000, 0, 2000, -50, 400, 0));
    }
    for _ in 0..5 {
        sim.simulation_step(&mut rng);
        assert_eq!(sim.carni.len(), 10);
        assert!(sim.herbi.len() <= 10);
        // No two same-species agents ever share a cell.
        let mut hk = sim.herbi.keys();
        hk.sort();
        hk.dedup();
        assert_eq!(hk.len(), sim.herbi.len());
        let mut ck = sim.carni.keys();
        ck.sort();
        ck.dedup();
        assert_eq!(ck.len(), sim.carni.len());
    }
}

#[test]
fn reproduction_from_two_survivors_fills_generation() {
    let mut rng = rand::thread_rng();
    let cfg = Config::default();
    let mut map: Grid<BasicGenome> = Grid::new();
    map.insert((0, 0), BasicGenome::with_genes(EatingType::Herbivore, 1100, 2200, 3300, 4400, 11, 22, 33));
    map.insert((9, 9), BasicGenome::with_genes(EatingType::Herbivore, 1500, 2600, 3700, 4800, -44, -55, -66));
    let keys = map.keys();
    // A negative chance disables mutation, so every offspring is an
    // exact crossover of two of the survivors.
    let next = place_genom(&keys, &map, -1, 50, &cfg, &mut rng);
    assert!(next.len() >= 1);
    assert!(next.len() <= 50);
    for pos in next.keys() {
        let g = next.get(&pos).unwrap();
        assert_eq!(g.get_energy(), 0);
        assert_eq!(g.get_etype(), EatingType::Herbivore);
        assert!([1100, 1500].contains(&g.get_weight()));
        assert!([2200, 2600].contains(&g.get_speed()));
        assert!([3300, 3700].contains(&g.get_power()));
        assert!([4400, 4800].contains(&g.get_detection_range()));
        assert!([11, -44].contains(&g.get_eval(1).unwrap()));
        assert!([22, -55].contains(&g.get_eval(2).unwrap()));
        assert!([33, -66].contains(&g.get_eval(3).unwrap()));
    }
}

#[test]
fn replenish_follows_decay_schedule() {
    let mut rng = rand::thread_rng();
    let cfg = Config::default();
    let plants = replenish_plants(&cfg, 0, &mut rng);
    assert!(plants.len() <= 300);
    let plants = replenish_plants(&cfg, 10, &mut rng);
    assert!(plants.len() <= 270);
    // At epoch 100 the decayed count reaches zero and is then halved.
    let plants = replenish_plants(&cfg, 100, &mut rng);
    assert_eq!(plants.len(), 0);
    let plants = replenish_plants(&cfg, 200, &mut rng);
    assert_eq!(plants.len(), 0);
}

fn fed_genome(et: EatingType) -> BasicGenome {
    let mut g = BasicGenome::with_genes(et, 100, 0, 0, 0, 0, 0, 0);
    g.increase_energy(1000);
    g
}

#[test]
fn lone_carnivore_ends_the_run_as_carnivore_extinction() {
    let mut rng = rand::thread_rng();
    let mut sim = empty_sim(Config::default());
    sim.epochs = 5;
    sim.sim_time = 1;
    for i in 0..3 {
        sim.herbi.insert((i, 0), fed_genome(EatingType::Herbivore));
    }
    sim.carni.insert((0, 20), fed_genome(EatingType::Carnivore));
    sim.run(&mut rng);
    assert_eq!(sim.res.die_out, Some(EatingType::Carnivore));
    assert_eq!(sim.res.epoch, 1);
    assert!(sim.carni.len() <= 1);
}

#[test]
fn lone_herbivore_ends_the_run_as_herbivore_extinction() {
    let mut rng = rand::thread_rng();
    let mut sim = empty_sim(Config::default());
    sim.epochs = 5;
    sim.sim_time = 1;
    sim.herbi.insert((0, 0), fed_genome(EatingType::Herbivore));
    for i in 0..3 {
        sim.carni.insert((i, 20), fed_genome(EatingType::Carnivore));
    }
    sim.run(&mut rng);
    assert_eq!(sim.res.die_out, Some(EatingType::Herbivore));
    assert_eq!(sim.res.epoch, 1);
    assert!(sim.herbi.len() <= 1);
}

#[test]
fn randomized_run_respects_epoch_budget() {
    let mut rng = rand::thread_rng();
    let cfg = Config { herbi_num: 30, carni_num: 30, plant_num: 120, ..Config::default() };
    let mut sim: BasicSimulation<BasicGenome, BasicGenome> =
        BasicSimulation::new(3, 2, 150, cfg, &mut rng);
    assert!(sim.herbi.len() >= 1 && sim.herbi.len() <= 30);
    assert!(sim.carni.len() >= 1 && sim.carni.len() <= 30);
    assert!(sim.plants.len() >= 1 && sim.plants.len() <= 120);
    for pos in sim.herbi.keys() {
        assert!((-50..51).contains(&pos.0) && (-50..51).contains(&pos.1));
    }
    assert_eq!(sim.res.epoch, 0);
    sim.run(&mut rng);
    assert!(sim.res.epoch <= 3);
    assert_ne!(sim.res.die_out, Some(EatingType::Omnivore));
    if sim.res.die_out.is_none() {
        assert_eq!(sim.res.epoch, 3);
        // A completed run ends right after reproduction: the new
        // generations are within the targets, non-empty, and start
        // with zero energy.
        assert!(sim.herbi.len() >= 1 && sim.herbi.len() <= 30);
        assert!(sim.carni.len() >= 1 && sim.carni.len() <= 30);
        for pos in sim.herbi.keys() {
            assert_eq!(sim.herbi.get(&pos).unwrap().get_energy(), 0);
        }
        for pos in sim.carni.keys() {
            assert_eq!(sim.carni.get(&pos).unwrap().get_energy(), 0);
        }
    } else {
        // An extinguished run ends right after culling: every survivor
        // covered its energy cost.
        for pos in sim.herbi.keys() {
            assert!(sim.herbi.get(&pos).unwrap().has_enough_energy());
        }
        for pos in sim.carni.keys() {
            assert!(sim.carni.get(&pos).unwrap().has_enough_energy());
        }
    }
}

#[test]
fn run_records_exact_start_attributes() {
    let mut rng = rand::thread_rng();
    let mut sim = empty_sim(Config::default());
    sim.epochs = 1;
    sim.herbi.insert((0, 0), BasicGenome::with_genes(EatingType::Herbivore, 1100, 2200, 3300, 4400, 11, 22, 33));
    sim.herbi.insert((9, 9), BasicGenome::with_genes(EatingType::Herbivore, 1500, 2600, 3700, 4800, -44, -55, -66));
    sim.run(&mut rng);
    // The start record is the truncating componentwise average of the
    // two initial herbivores; the carnivore record stays zeroed.
    let h = sim.res.average_herbi_start_attributes;
    assert_eq!(h.weight, 1300);
    assert_eq!(h.speed, 2400);
    assert_eq!(h.power, 3500);
    assert_eq!(h.detection, 4600);
    assert_eq!(h.eval1, -16);
    assert_eq!(h.eval2, -16);
    assert_eq!(h.eval3, -16);
    let c = sim.res.average_carni_start_attributes;
    assert_eq!(c, ecosim::stats::TraitTotals { weight: 0, speed: 0, power: 0, detection: 0, eval1: 0, eval2: 0, eval3: 0 });
}

#[test]
fn step_consumes_the_doomed_and_preserves_heritable_traits() {
    let mut rng = rand::thread_rng();
    let mut sim = empty_sim(Config { strength_contest: true, ..Config::default() });
    // One herbivore is doomed (a stronger carnivore on its cell and one
    // sub-move); the other roams freely.
    sim.herbi.insert((5, 5), BasicGenome::with_genes(EatingType::Herbivore, 1500, 1000, 1000, 0, 0, 0, 0));
    sim.herbi.insert((30, 30), BasicGenome::with_genes(EatingType::Herbivore, 1100, 2000, 3300, 2000, 7, 8, 9));
    sim.carni.insert((5, 5), BasicGenome::with_genes(EatingType::Carnivore, 100, 0, 4000, 0, 0, 0, 0));
    sim.simulation_step(&mut rng);
    assert_eq!(sim.herbi.len(), 1);
    // The survivor kept its heritable traits wherever it moved.
    let pos = *sim.herbi.keys().first().unwrap();
    let g = sim.herbi.get(&pos).unwrap();
    assert_eq!(g.get_weight(), 1100);
    assert_eq!(g.get_speed(), 2000);
    assert_eq!(g.get_power(), 3300);
    assert_eq!(g.get_detection_range(), 2000);
    assert_eq!(g.get_eval(1).unwrap(), 7);
    assert!(g.get_energy() >= 0);
}

#[test]
fn result_averages_divide_by_epochs() {
    let mut res = SimulationResult::new();
    res.epoch = 2;
    res.average_herbi = 7;
    res.average_carni = 10;
    assert_eq!(res.get_average_herbi(), 3);
    assert_eq!(res.get_average_carni(), 5);
}

#[test]
fn cell_char_priority() {
    let mut plants: Grid<bool> = Grid::new();
    let mut herbi: Grid<BasicGenome> = Grid::new();
    let mut carni: Grid<BasicGenome> = Grid::new();
    plants.insert((0, 0), true);
    plants.insert((1, 0), true);
    herbi.insert((1, 0), BasicGenome::with_genes(EatingType::Herbivore, 100, 0, 0, 0, 0, 0, 0));
    carni.insert((1, 0), BasicGenome::with_genes(EatingType::Carnivore, 100, 0, 0, 0, 0, 0, 0));
    assert_eq!(cell_char(&plants, &herbi, &carni, (1, 0)), 'C');
    assert_eq!(cell_char(&plants, &herbi, &carni, (0, 0)), '*');
    assert_eq!(cell_char(&plants, &herbi, &carni, (9, 9)), '_');
    carni.remove(&(1, 0));
    assert_eq!(cell_char(&plants, &herbi, &carni, (1, 0)), 'H');
}

#[test]
fn predation_contest_kills_weaker_prey() {
    let mut rng = rand::thread_rng();
    let mut sim = empty_sim(Config { strength_contest: true, ..Config::default() });
    sim.herbi.insert((5, 5), BasicGenome::with_genes(EatingType::Herbivore, 2000, 1000, 1000, 0, 0, 0, 0));
    sim.carni.insert((5, 5), BasicGenome::with_genes(EatingType::Carnivore, 100, 0, 4000, 0, 0, 0, 0));
    sim.simulation_step(&mut rng);
    assert_eq!(sim.herbi.len(), 0);
    assert_eq!(sim.carni.get(&(5, 5)).unwrap().get_energy(), 2000 * 2);
}

#[test]
fn sub_move_forages_exactly_one_plant() {
    let mut rng = rand::thread_rng();
    let mut sim = empty_sim(Config::default());
    sim.herbi.insert((0, 0), BasicGenome::with_genes(EatingType::Herbivore, 100, 1000, 0, 0, 0, 0, 0));
    for p in [(-1, 0), (1, 0), (0, -1), (0, 1)] {
        sim.plants.insert(p, true);
    }
    let (alive, pos) = sim.herbi_sub_move((0, 0), &mut rng);
    assert!(alive);
    assert!([(-1, 0), (1, 0), (0, -1), (0, 1)].contains(&pos));
    assert_eq!(sim.plants.len(), 3);
    assert!(!sim.plants.contains_key(&pos));
    assert_eq!(sim.herbi.get(&pos).unwrap().get_energy(), 1000);
}

#[test]
fn sub_move_predation_pre_check() {
    let mut rng = rand::thread_rng();
    let mut sim = empty_sim(Config { strength_contest: false, ..Config::default() });
    sim.herbi.insert((3, 3), BasicGenome::with_genes(EatingType::Herbivore, 1500, 1000, 4000, 0, 0, 0, 0));
    sim.carni.insert((3, 3), BasicGenome::with_genes(EatingType::Carnivore, 100, 0, 0, 0, 0, 0, 0));
    let (alive, pos) = sim.herbi_sub_move((3, 3), &mut rng);
    assert!(!alive);
    assert_eq!(pos, (3, 3));
    assert_eq!(sim.herbi.len(), 0);
    assert_eq!(sim.carni.get(&(3, 3)).unwrap().get_energy(), 3000);
}
