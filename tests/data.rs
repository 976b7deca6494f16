use world_foundry_core::data::Grid;
use world_foundry_core::{initialize, version};

#[test]
fn grid_new_get_set() {
    let mut g = Grid::new(3, 2, 7i32);
    assert_eq!(g.data.len(), 6);
    assert_eq!(g.get(2, 1), Some(&7));
    assert_eq!(g.get(3, 0), None);
    assert_eq!(g.get(0, 2), None);
    assert!(g.set(1, 1, 9));
    assert_eq!(g.get(1, 1), Some(&9));
    assert_eq!(g.data[4], 9);
    assert!(!g.set(3, 1, 5));
    assert_eq!(g.data, vec![7, 7, 7, 7, 9, 7]);
}

#[test]
fn grid_with_short_data() {
    let mut g: Grid<i32> = Grid { width: 4, height: 4, data: vec![1, 2] };
    assert_eq!(g.get(1, 0), Some(&2));
    assert_eq!(g.get(2, 0), None);
    assert!(!g.set(0, 3, 1));
}

#[test]
fn engine_initializes() {
    assert!(initialize().is_ok());
    assert_eq!(version(), "0.1.0");
}
