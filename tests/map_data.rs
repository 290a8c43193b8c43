use ahistorics::map_data::{simulated_map_data, Hex, MapData, TILE_DEPTH_HIGH, TILE_DEPTH_LOW};

fn sample_map() -> MapData {
    let data: Vec<Hex> = (0..12).map(|i| if i % 3 == 0 { Hex::Blank } else { Hex::Tile(i) }).collect();
    MapData::new(4, data)
}

#[test]
fn map_dimensions() {
    let map = sample_map();
    assert_eq!(map.row_size(), 4);
    assert_eq!(map.cols(), 4);
    assert_eq!(map.rows(), 3);
    assert_eq!(map.data().len(), 12);
    let ragged = MapData::new(5, vec![Hex::Blank; 12]);
    assert_eq!(ragged.rows(), 2);
}

#[test]
fn rect_lookup() {
    let map = sample_map();
    assert_eq!(map.get_rect(1, 0), Some(&Hex::Tile(1)));
    assert_eq!(map.get_rect(3, 2), Some(&Hex::Tile(11)));
    assert_eq!(map.get_rect(2, 2), Some(&Hex::Tile(10)));
    assert_eq!(map.get_rect(0, 3), None);
    assert_eq!(map.get_rect(usize::MAX, usize::MAX), None);
}

#[test]
fn axial_lookup_rounds_half_column_toward_zero() {
    let map = sample_map();
    // q = 3: row r + 1, column 3.
    assert_eq!(map.get_axial(3, 0), Some(&Hex::Tile(7)));
    // q = 2, r = 0: row 1, column 2.
    assert_eq!(map.get_axial(2, 0), Some(&Hex::Blank));
    assert_eq!(map.get_axial(2, 1), Some(&Hex::Tile(10)));
    // q = -1: -1 / 2 is 0, so index r * 4 - 1.
    assert_eq!(map.get_axial(-1, 1), Some(&Hex::Blank));
    assert_eq!(map.get_axial(-1, 0), None);
    assert_eq!(map.get_axial(0, 3), None);
    assert_eq!(map.get_cube(3, -3, 0), map.get_axial(3, 0));
}

#[test]
fn iteration_gives_column_and_row() {
    let map = sample_map();
    let mut it = map.iter();
    let mut seen = Vec::new();
    while let Some((hex, x, y)) = it.next() {
        seen.push((hex.clone(), x, y));
    }
    assert_eq!(seen.len(), 12);
    assert_eq!(seen[0], (Hex::Blank, 0, 0));
    assert_eq!(seen[5], (Hex::Tile(5), 1, 1));
    assert_eq!(seen[11], (Hex::Tile(11), 3, 2));
    assert!(it.next().is_none());
}

#[test]
fn simulated_map_is_square_with_bounded_depths() {
    let map = simulated_map_data(6).expect("random source");
    assert_eq!(map.row_size(), 6);
    assert_eq!(map.data().len(), 36);
    for hex in map.data() {
        if let Hex::Tile(d) = hex {
            assert!(TILE_DEPTH_LOW <= *d && *d < TILE_DEPTH_HIGH);
        }
    }
    let empty = simulated_map_data(0).expect("random source");
    assert_eq!(empty.data().len(), 0);
}
