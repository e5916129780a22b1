use ecosim::engine::{
    add_2x_tupel, calculate_reward, calculate_meat_efficiency, carni_detect, carni_eat,
    compare_strength, herbi_detect, round_milli, Direction,
};
use ecosim::genome::{BasicGenome, EatingType, Genome};
use ecosim::world::Grid;

#[test]
fn direction_tables() {
    assert_eq!(Direction::Left.dir(), (-1, 0));
    assert_eq!(Direction::Right.dir(), (1, 0));
    assert_eq!(Direction::Up.dir(), (0, -1));
    assert_eq!(Direction::Down.dir(), (0, 1));
    for i in 0..4usize {
        assert_eq!(Direction::get(i).ord(), i);
    }
}

#[test]
fn add_2x_tupel_adds_and_wraps() {
    assert_eq!(add_2x_tupel((1, 2), (3, -4)), (4, -2));
    assert_eq!(add_2x_tupel((i32::MAX, 0), (1, 0)), (i32::MIN, 0));
}

#[test]
fn calculate_reward_exact_values() {
    // Shifted cell (1, 0), entity at (3, 0): distance 2, reward halves.
    assert_eq!(calculate_reward(&(1, 0), &(0, 0), &(3, 0), 10), 5);
    // Distance 0: the full reward.
    assert_eq!(calculate_reward(&(1, 0), &(0, 0), &(1, 0), 10), 10);
    // Integer division truncates toward zero for negative rewards.
    assert_eq!(calculate_reward(&(1, 0), &(0, 0), &(3, 0), -7), -3);
    // Distance 3 on a diagonal entity.
    assert_eq!(calculate_reward(&(0, 1), &(0, 0), &(2, 2), 9), 3);
}

#[test]
fn round_milli_half_up() {
    assert_eq!(round_milli(0), 0);
    assert_eq!(round_milli(499), 0);
    assert_eq!(round_milli(500), 1);
    assert_eq!(round_milli(1000), 1);
    assert_eq!(round_milli(2500), 3);
}

#[test]
fn compare_strength_modes() {
    let c = BasicGenome::with_genes(EatingType::Carnivore, 100, 0, 4000, 0, 0, 0, 0);
    let h = BasicGenome::with_genes(EatingType::Herbivore, 100, 0, 1500, 0, 0, 0, 0);
    assert_eq!(compare_strength(&c, &h, true), 2500);
    assert_eq!(compare_strength(&h, &c, true), -2500);
    assert_eq!(compare_strength(&h, &c, false), 1000);
}

#[test]
fn meat_efficiency_scales_weight() {
    assert_eq!(calculate_meat_efficiency(1500, 2000), 3000);
    assert_eq!(calculate_meat_efficiency(100, 2000), 200);
    assert_eq!(calculate_meat_efficiency(999, 1000), 999);
    assert_eq!(calculate_meat_efficiency(999, 500), 499);
}

#[test]
fn carni_eat_transfers_exact_energy() {
    let mut carni: Grid<BasicGenome> = Grid::new();
    let mut herbi: Grid<BasicGenome> = Grid::new();
    carni.insert((2, 3), BasicGenome::with_genes(EatingType::Carnivore, 100, 0, 0, 0, 0, 0, 0));
    herbi.insert((2, 3), BasicGenome::with_genes(EatingType::Herbivore, 1500, 0, 0, 0, 0, 0, 0));
    carni_eat(&(2, 3), &mut carni, &mut herbi, 2000);
    assert!(!herbi.contains_key(&(2, 3)));
    assert_eq!(herbi.len(), 0);
    assert_eq!(carni.get(&(2, 3)).unwrap().get_energy(), 3000);
}

#[test]
fn herbivore_moves_toward_food() {
    let mut rng = rand::thread_rng();
    let carni: Grid<BasicGenome> = Grid::new();
    let mut herbi: Grid<BasicGenome> = Grid::new();
    let mut plants: Grid<bool> = Grid::new();
    // Detection 3.0, food preference 900, one plant two cells to the right.
    herbi.insert((0, 0), BasicGenome::with_genes(EatingType::Herbivore, 100, 1000, 0, 3000, 0, 0, 900));
    plants.insert((2, 0), true);
    for _ in 0..50 {
        let mv = herbi_detect((0, 0), &carni, &herbi, &plants, &mut rng);
        assert_eq!(mv, (1, 0));
    }
}

#[test]
fn herbivore_flees_everything_negative() {
    let mut rng = rand::thread_rng();
    let carni: Grid<BasicGenome> = Grid::new();
    let mut herbi: Grid<BasicGenome> = Grid::new();
    let mut plants: Grid<bool> = Grid::new();
    // A plant nearby but the food preference is negative: staying put
    // beats any negative-scoring move.
    herbi.insert((0, 0), BasicGenome::with_genes(EatingType::Herbivore, 100, 1000, 0, 3000, 0, 0, -900));
    plants.insert((2, 0), true);
    for _ in 0..50 {
        let mv = herbi_detect((0, 0), &carni, &herbi, &plants, &mut rng);
        assert_eq!(mv, (0, 0));
    }
}

#[test]
fn collision_guard_blocks_occupied_cells() {
    let mut rng = rand::thread_rng();
    let carni: Grid<BasicGenome> = Grid::new();
    let mut herbi: Grid<BasicGenome> = Grid::new();
    let plants: Grid<bool> = Grid::new();
    herbi.insert((0, 0), BasicGenome::with_genes(EatingType::Herbivore, 100, 1000, 0, 0, 0, 0, 0));
    for p in [(-1, 0), (1, 0), (0, -1), (0, 1)] {
        herbi.insert(p, BasicGenome::with_genes(EatingType::Herbivore, 100, 0, 0, 0, 0, 0, 0));
    }
    for _ in 0..50 {
        let mv = herbi_detect((0, 0), &carni, &herbi, &plants, &mut rng);
        assert_eq!(mv, (0, 0));
    }
}

#[test]
fn carnivore_moves_toward_prey() {
    let mut rng = rand::thread_rng();
    let mut carni: Grid<BasicGenome> = Grid::new();
    let mut herbi: Grid<BasicGenome> = Grid::new();
    carni.insert((0, 0), BasicGenome::with_genes(EatingType::Carnivore, 100, 1000, 0, 3000, 0, 900, 0));
    herbi.insert((0, 2), BasicGenome::with_genes(EatingType::Herbivore, 100, 0, 0, 0, 0, 0, 0));
    for _ in 0..50 {
        let mv = carni_detect((0, 0), &carni, &herbi, &mut rng);
        assert_eq!(mv, (0, 1));
    }
}

#[test]
fn detection_window_excludes_high_positive_offset_sum() {
    let mut rng = rand::thread_rng();
    let carni: Grid<BasicGenome> = Grid::new();
    let mut herbi: Grid<BasicGenome> = Grid::new();
    let mut plants: Grid<bool> = Grid::new();
    // The cell (2, 2) has offset sum 4 > r = 3, so the repulsive plant
    // is not sensed: every direction scores zero and the agent moves.
    herbi.insert((0, 0), BasicGenome::with_genes(EatingType::Herbivore, 100, 1000, 0, 3000, 0, 0, -900));
    plants.insert((2, 2), true);
    for _ in 0..50 {
        let mv = herbi_detect((0, 0), &carni, &herbi, &plants, &mut rng);
        assert_ne!(mv, (0, 0));
    }
}

#[test]
fn detection_window_includes_negative_offsets_freely() {
    let mut rng = rand::thread_rng();
    let carni: Grid<BasicGenome> = Grid::new();
    let mut herbi: Grid<BasicGenome> = Grid::new();
    let mut plants: Grid<bool> = Grid::new();
    // The cell (-2, -2) has offset sum -4 <= r = 3, so the repulsive
    // plant is sensed: every direction scores negative and the agent
    // stays in place.
    herbi.insert((0, 0), BasicGenome::with_genes(EatingType::Herbivore, 100, 1000, 0, 3000, 0, 0, -900));
    plants.insert((-2, -2), true);
    for _ in 0..50 {
        let mv = herbi_detect((0, 0), &carni, &herbi, &plants, &mut rng);
        assert_eq!(mv, (0, 0));
    }
}
