use ecosim::world::Grid;

#[test]
fn empty_grid() {
    let g: Grid<u32> = Grid::new();
    assert_eq!(g.len(), 0);
    assert!(!g.contains_key(&(0, 0)));
    assert!(g.get(&(0, 0)).is_none());
}

#[test]
fn insert_and_get() {
    let mut g: Grid<u32> = Grid::new();
    g.insert((1, 2), 10);
    g.insert((3, 4), 20);
    assert_eq!(g.len(), 2);
    assert!(g.contains_key(&(1, 2)));
    assert!(g.contains_key(&(3, 4)));
    assert!(!g.contains_key(&(2, 1)));
    assert_eq!(g.get(&(1, 2)), Some(&10));
    assert_eq!(g.get(&(3, 4)), Some(&20));
    assert_eq!(g.get(&(0, 0)), None);
}

#[test]
fn insert_overwrites_without_growing() {
    let mut g: Grid<u32> = Grid::new();
    g.insert((5, 5), 1);
    g.insert((5, 5), 2);
    assert_eq!(g.len(), 1);
    assert_eq!(g.get(&(5, 5)), Some(&2));
}

#[test]
fn remove_returns_occupant() {
    let mut g: Grid<u32> = Grid::new();
    g.insert((0, 0), 7);
    g.insert((1, 0), 8);
    assert_eq!(g.remove(&(0, 0)), Some(7));
    assert_eq!(g.remove(&(0, 0)), None);
    assert_eq!(g.len(), 1);
    assert!(g.contains_key(&(1, 0)));
}

#[test]
fn keys_snapshot_is_exact_and_unique() {
    let mut g: Grid<bool> = Grid::new();
    g.insert((0, 0), true);
    g.insert((2, -1), true);
    g.insert((0, 0), true);
    g.insert((-3, 7), true);
    let mut ks = g.keys();
    assert_eq!(ks.len(), 3);
    ks.sort();
    assert_eq!(ks, vec![(-3, 7), (0, 0), (2, -1)]);
}
