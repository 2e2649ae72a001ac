use fractal_renderer::math::I64Vec2;
use fractal_renderer::quad_cell::{Dyadic, QuadPos};
use fractal_renderer::tile_map::TileMap;
use std::cmp::Ordering;

fn tile(x: i64, y: i64, exponent: i32) -> QuadPos {
    QuadPos { unscaled_pos: I64Vec2 { x, y }, exponent }
}

#[test]
fn coarser_tiles_sort_first() {
    let a = tile(0, 0, 0);
    let b = tile(0, 0, 1);
    assert!(b < a);
    assert!(a > b);
    assert!(!(a < b));
    assert!(b.is_before(&a));
    assert!(!a.is_before(&b));
    assert_eq!(b.partial_cmp(&a), Some(Ordering::Less));
    assert_eq!(a.partial_cmp(&b), Some(Ordering::Greater));
    // the size decides before the position does
    assert!(tile(100, 100, 3) < tile(-100, -100, 2));
    assert!(tile(5, 5, -1) < tile(0, 0, -2));
}

#[test]
fn tiles_of_one_size_sort_by_column_then_row() {
    assert!(tile(0, 9, 0) < tile(1, -9, 0));
    assert!(tile(-1, 0, 4) < tile(0, 0, 4));
    assert!(tile(2, 3, 0) < tile(2, 4, 0));
    assert!(!(tile(2, 4, 0) < tile(2, 3, 0)));
    assert_eq!(tile(2, 3, 0).partial_cmp(&tile(2, 3, 0)), Some(Ordering::Equal));
    assert!(!tile(2, 3, 0).is_before(&tile(2, 3, 0)));
    assert!(tile(2, 3, 0) <= tile(2, 3, 0));
    assert!(tile(i64::MIN, i64::MAX, 0) < tile(i64::MIN + 1, i64::MIN, 0));
}

#[test]
fn the_order_is_total_on_a_sample() {
    let mut tiles = Vec::new();
    for e in [-2, 0, 3] {
        for x in [-1, 0, 2] {
            for y in [-5, 1] {
                tiles.push(tile(x, y, e));
            }
        }
    }
    for a in tiles.iter() {
        for b in tiles.iter() {
            let less = a.is_before(b);
            let more = b.is_before(a);
            assert!(!(less && more));
            assert_eq!(!less && !more, a == b);
            for c in tiles.iter() {
                if less && b.is_before(c) {
                    assert!(a.is_before(c));
                }
            }
        }
    }
}

#[test]
fn default_tile_is_the_unit_square_at_the_origin() {
    assert_eq!(QuadPos::default(), tile(0, 0, 0));
}

#[test]
fn tile_size_is_a_power_of_two_exactly() {
    for e in [i32::MIN, -1074, -1, 0, 1, 1023, i32::MAX] {
        let q = tile(17, -4, e);
        assert_eq!(q.exact_size(), Dyadic { mantissa: 1, exponent: e as i64 });
    }
}

#[test]
fn opposite_corners_are_one_side_apart() {
    for &(x, y, e) in [(0, 0, 0), (-3, 5, 2), (i64::MAX, i64::MIN, -7), (i64::MIN, i64::MAX, 9)].iter() {
        let q = tile(x, y, e);
        let low = q.exact_bottom_left();
        let high = q.exact_top_right();
        let size = q.exact_size();
        assert_eq!(low.x, Dyadic { mantissa: x as i128, exponent: e as i64 });
        assert_eq!(low.y, Dyadic { mantissa: y as i128, exponent: e as i64 });
        assert_eq!(high.x.exponent, size.exponent);
        assert_eq!(high.y.exponent, size.exponent);
        assert_eq!(high.x.mantissa - low.x.mantissa, size.mantissa);
        assert_eq!(high.y.mantissa - low.y.mantissa, size.mantissa);
    }
}

#[test]
fn the_centre_is_half_a_side_from_the_corner() {
    let q = tile(-3, 5, 2);
    let mid = q.exact_center();
    assert_eq!(mid.x, Dyadic { mantissa: -5, exponent: 1 });
    assert_eq!(mid.y, Dyadic { mantissa: 11, exponent: 1 });
    let edge = tile(i64::MAX, i64::MIN, i32::MIN).exact_center();
    assert_eq!(edge.x.mantissa, 2 * (i64::MAX as i128) + 1);
    assert_eq!(edge.y.mantissa, 2 * (i64::MIN as i128) + 1);
    assert_eq!(edge.x.exponent, i32::MIN as i64 - 1);
}

#[test]
fn an_empty_map_holds_nothing() {
    let map: TileMap<u8> = TileMap::new();
    assert_eq!(map.len(), 0);
    assert!(!map.contains_key(&tile(0, 0, 0)));
    assert_eq!(map.get(&tile(0, 0, 0)), None);
}

#[test]
fn tiles_are_walked_in_their_order() {
    let mut map = TileMap::new();
    let added = [tile(1, 1, 0), tile(0, 0, 2), tile(0, 5, 0), tile(-4, 0, 0), tile(0, 0, -3), tile(7, 7, 2)];
    for (k, q) in added.iter().enumerate() {
        assert_eq!(map.insert(*q, k), None);
    }
    assert_eq!(map.len(), 6);
    let keys: Vec<QuadPos> = (0..map.len()).map(|i| map.key_at(i)).collect();
    assert_eq!(
        keys,
        vec![tile(0, 0, 2), tile(7, 7, 2), tile(-4, 0, 0), tile(0, 5, 0), tile(1, 1, 0), tile(0, 0, -3)]
    );
    let values: Vec<usize> = (0..map.len()).map(|i| *map.value_at(i)).collect();
    assert_eq!(values, vec![1, 5, 3, 2, 0, 4]);
    for pair in keys.windows(2) {
        assert!(pair[0] < pair[1]);
    }
    for (k, q) in added.iter().enumerate() {
        assert!(map.contains_key(q));
        assert_eq!(map.get(q), Some(&k));
    }
    assert!(!map.contains_key(&tile(1, 1, 1)));
}

#[test]
fn inserting_again_replaces_the_tile() {
    let mut map = TileMap::new();
    assert_eq!(map.insert(tile(0, 0, 0), "first"), None);
    assert_eq!(map.insert(tile(1, 0, 0), "other"), None);
    assert_eq!(map.insert(tile(0, 0, 0), "second"), Some("first"));
    assert_eq!(map.len(), 2);
    assert_eq!(map.get(&tile(0, 0, 0)), Some(&"second"));
    assert_eq!(map.get(&tile(1, 0, 0)), Some(&"other"));
}

#[test]
fn removing_takes_one_tile_out() {
    let mut map = TileMap::new();
    for x in 0..5 {
        map.insert(tile(x, 0, 0), x * 10);
    }
    let entry = map.remove_at(2);
    assert_eq!(entry, (tile(2, 0, 0), 20));
    assert_eq!(map.len(), 4);
    assert!(!map.contains_key(&tile(2, 0, 0)));
    for x in [0, 1, 3, 4] {
        assert_eq!(map.get(&tile(x, 0, 0)), Some(&(x * 10)));
    }
    let first = map.remove_at(0);
    assert_eq!(first.0, tile(0, 0, 0));
    let last = map.remove_at(2);
    assert_eq!(last.0, tile(4, 0, 0));
    assert_eq!(map.len(), 2);
}

#[test]
fn clearing_drops_every_tile() {
    let mut map = TileMap::new();
    for x in 0..5 {
        map.insert(tile(x, x, x as i32), ());
    }
    map.clear();
    assert_eq!(map.len(), 0);
    assert!(!map.contains_key(&tile(1, 1, 1)));
    assert_eq!(map.insert(tile(1, 1, 1), ()), None);
    assert_eq!(map.len(), 1);
}
