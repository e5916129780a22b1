use ecosim::genome::{BasicGenome, EatingType, Genome, SimError};

fn sample_a() -> BasicGenome {
    BasicGenome::with_genes(EatingType::Herbivore, 1100, 2200, 3300, 4400, 11, 22, 33)
}

fn sample_b() -> BasicGenome {
    BasicGenome::with_genes(EatingType::Carnivore, 1500, 2600, 3700, 4800, -44, -55, -66)
}

#[test]
fn crossover_fixed_mask() {
    let a = sample_a();
    let b = sample_b();
    let c = a.crossover(&b);
    assert_eq!(c.get_weight(), a.get_weight());
    assert_eq!(c.get_power(), a.get_power());
    assert_eq!(c.get_eval(2).unwrap(), a.get_eval(2).unwrap());
    assert_eq!(c.get_speed(), b.get_speed());
    assert_eq!(c.get_detection_range(), b.get_detection_range());
    assert_eq!(c.get_eval(1).unwrap(), b.get_eval(1).unwrap());
    assert_eq!(c.get_eval(3).unwrap(), b.get_eval(3).unwrap());
    assert_eq!(c.get_energy(), 0);
    assert_eq!(c.get_etype(), EatingType::Herbivore);
}

#[test]
fn crossover_is_deterministic() {
    let a = sample_a();
    let b = sample_b();
    let c1 = a.crossover(&b);
    let c2 = a.crossover(&b);
    assert_eq!(c1.get_weight(), c2.get_weight());
    assert_eq!(c1.get_speed(), c2.get_speed());
    assert_eq!(c1.get_power(), c2.get_power());
    assert_eq!(c1.get_detection_range(), c2.get_detection_range());
    assert_eq!(c1.get_eval(1).unwrap(), c2.get_eval(1).unwrap());
    assert_eq!(c1.get_eval(2).unwrap(), c2.get_eval(2).unwrap());
    assert_eq!(c1.get_eval(3).unwrap(), c2.get_eval(3).unwrap());
    assert_eq!(c1.get_energy(), c2.get_energy());
}

#[test]
fn crossover_energy_reset() {
    let mut a = sample_a();
    let b = sample_b();
    a.increase_energy(5000);
    let c = a.crossover(&b);
    assert_eq!(c.get_energy(), 0);
}

#[test]
fn mutate_keeps_floors() {
    let mut rng = rand::thread_rng();
    // Start at the floor so downward perturbations must clamp.
    let mut g = BasicGenome::with_genes(EatingType::Herbivore, 100, 0, 0, 0, 0, 0, 0);
    for _ in 0..500 {
        g.mutate(1000, &mut rng);
        assert!(g.get_weight() >= 100);
        assert!(g.get_power() >= 0);
        assert!(g.get_speed() >= 0);
        assert!(g.get_detection_range() >= 0);
    }
}

#[test]
fn mutate_changes_at_most_one_gene() {
    let mut rng = rand::thread_rng();
    for _ in 0..200 {
        let before = sample_a();
        let mut g = before.clone();
        g.mutate(1000, &mut rng);
        let mut changed = 0;
        if g.get_weight() != before.get_weight() {
            changed += 1;
            assert!((g.get_weight() - before.get_weight()).abs() <= 1000);
        }
        if g.get_speed() != before.get_speed() {
            changed += 1;
            assert!((g.get_speed() - before.get_speed()).abs() <= 1000);
        }
        if g.get_power() != before.get_power() {
            changed += 1;
            assert!((g.get_power() - before.get_power()).abs() <= 1000);
        }
        if g.get_detection_range() != before.get_detection_range() {
            changed += 1;
            assert!((g.get_detection_range() - before.get_detection_range()).abs() <= 1000);
        }
        for num in 1..=3u8 {
            if g.get_eval(num).unwrap() != before.get_eval(num).unwrap() {
                changed += 1;
                assert!((g.get_eval(num).unwrap() - before.get_eval(num).unwrap()).abs() <= 50);
            }
        }
        assert!(changed <= 1);
        assert_eq!(g.get_energy(), before.get_energy());
        assert_eq!(g.get_etype(), before.get_etype());
    }
}

#[test]
fn mutate_negative_chance_never_mutates() {
    let mut rng = rand::thread_rng();
    let before = sample_b();
    let mut g = before.clone();
    for _ in 0..100 {
        g.mutate(-1, &mut rng);
    }
    assert_eq!(g.get_weight(), before.get_weight());
    assert_eq!(g.get_speed(), before.get_speed());
    assert_eq!(g.get_power(), before.get_power());
    assert_eq!(g.get_detection_range(), before.get_detection_range());
    assert_eq!(g.get_eval(1).unwrap(), before.get_eval(1).unwrap());
    assert_eq!(g.get_eval(2).unwrap(), before.get_eval(2).unwrap());
    assert_eq!(g.get_eval(3).unwrap(), before.get_eval(3).unwrap());
}

#[test]
fn has_enough_energy_exact_threshold() {
    // Cost is a fifth of the trait sum: weight 1.0 needs energy 0.2.
    let mut g = BasicGenome::with_genes(EatingType::Herbivore, 1000, 0, 0, 0, 0, 0, 0);
    assert!(!g.has_enough_energy());
    g.increase_energy(199);
    assert!(!g.has_enough_energy());
    g.increase_energy(1);
    assert!(g.has_enough_energy());
}

#[test]
fn increase_energy_accumulates_and_saturates() {
    let mut g = BasicGenome::with_genes(EatingType::Carnivore, 100, 0, 0, 0, 0, 0, 0);
    g.increase_energy(1000);
    g.increase_energy(2500);
    assert_eq!(g.get_energy(), 3500);
    g.increase_energy(i64::MAX);
    assert_eq!(g.get_energy(), i64::MAX);
    g.increase_energy(1);
    assert_eq!(g.get_energy(), i64::MAX);
}

#[test]
fn get_eval_selects_and_rejects() {
    let g = sample_a();
    assert_eq!(g.get_eval(1), Ok(11));
    assert_eq!(g.get_eval(2), Ok(22));
    assert_eq!(g.get_eval(3), Ok(33));
    assert_eq!(g.get_eval(0), Err(SimError::InvalidIndex(0)));
    assert_eq!(g.get_eval(4), Err(SimError::InvalidIndex(4)));
    assert_eq!(g.get_eval(255), Err(SimError::InvalidIndex(255)));
}

#[test]
fn new_genome_in_initial_ranges() {
    let mut rng = rand::thread_rng();
    for _ in 0..100 {
        let g = BasicGenome::new(EatingType::Herbivore, &mut rng);
        assert_eq!(g.get_etype(), EatingType::Herbivore);
        assert_eq!(g.get_energy(), 0);
        assert!(g.get_weight() >= 100 && g.get_weight() < 5000);
        assert!(g.get_speed() >= 0 && g.get_speed() < 5000);
        assert!(g.get_power() >= 0 && g.get_power() < 5000);
        assert!(g.get_detection_range() >= 0 && g.get_detection_range() < 5000);
        for num in 1..=3u8 {
            let w = g.get_eval(num).unwrap();
            assert!(w >= -1000 && w < 1000);
        }
    }
}
