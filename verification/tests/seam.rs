use slicecore_engine::seam::{
    closest_vertex, distance_squared_i64, max_y_vertex, select_aligned, select_random,
    select_rear, IPoint2, SeamPosition,
};

/// Millimetres to integer coordinates (nanometre resolution, 1 mm = 1e6 units).
fn mm(x: f64, y: f64) -> IPoint2 {
    IPoint2 { x: (x * 1_000_000.0).round() as i64, y: (y * 1_000_000.0).round() as i64 }
}

fn make_square(size: f64) -> Vec<IPoint2> {
    vec![mm(0.0, 0.0), mm(size, 0.0), mm(size, size), mm(0.0, size)]
}

#[test]
fn aligned_with_previous_seam_returns_nearby_vertex() {
    let pts = make_square(20.0);
    let prev_seam = mm(20.1, 20.1);
    let idx1 = select_aligned(&pts, Some(prev_seam));
    assert_eq!(pts[idx1], mm(20.0, 20.0));
    let idx2 = select_aligned(&pts, Some(prev_seam));
    assert_eq!(idx1, idx2);
}

#[test]
fn aligned_without_previous_seam_selects_rear() {
    let pts = make_square(20.0);
    let idx = select_aligned(&pts, None);
    let max_y = pts.iter().map(|p| p.y).max().unwrap();
    assert_eq!(pts[idx].y, max_y);
    // Ties on Y go to the smallest X.
    assert_eq!(idx, 3);
}

#[test]
fn random_different_layers_produce_different_indices() {
    let n = make_square(20.0).len();
    let indices: Vec<usize> = (0..20).map(|li| select_random(n, li)).collect();
    for &idx in &indices {
        assert!(idx < n);
    }
    assert!(!indices.iter().all(|&i| i == indices[0]));
}

#[test]
fn random_same_layer_produces_same_index() {
    let n = make_square(20.0).len();
    assert_eq!(select_random(n, 42), select_random(n, 42));
}

#[test]
fn random_hash_exact_values() {
    // (42 * 2654435761) >> 16 = 1701190 (mod 2^64), and 1701190 % 4 = 2.
    assert_eq!(select_random(4, 42), ((42u64 * 2654435761) >> 16) as usize % 4);
    assert_eq!(select_random(1000, 0), 0);
    assert_eq!(select_random(7, 1), (2654435761u64 >> 16) as usize % 7);
    // The product wraps for large layer indices.
    let big = usize::MAX;
    assert_eq!(select_random(5, big), ((big as u64).wrapping_mul(2654435761) >> 16) as usize % 5);
}

#[test]
fn rear_returns_max_y_vertex() {
    let pts = make_square(20.0);
    let idx = select_rear(&pts, None);
    let max_y = pts.iter().map(|p| p.y).max().unwrap();
    assert_eq!(pts[idx].y, max_y);
}

#[test]
fn rear_ties_go_to_previous_seam() {
    let pts = make_square(20.0);
    assert_eq!(select_rear(&pts, Some(mm(19.0, 25.0))), 2);
    assert_eq!(select_rear(&pts, Some(mm(1.0, 25.0))), 3);
    assert_eq!(max_y_vertex(&[], None), 0);
}

#[test]
fn all_strategies_return_valid_index() {
    let pts = make_square(20.0);
    let n = pts.len();
    let prev = Some(mm(10.0, 10.0));
    for layer in 0..10 {
        assert!(select_aligned(&pts, prev) < n);
        assert!(select_random(n, layer) < n);
        assert!(select_rear(&pts, prev) < n);
    }
}

#[test]
fn distance_squared_basic() {
    let a = mm(0.0, 0.0);
    let b = mm(3.0, 4.0);
    let dist_sq = distance_squared_i64(a, b);
    let expected = 25_000_000_000_000i128;
    let diff = (dist_sq - expected).abs();
    assert!(diff < 1000);
}

#[test]
fn closest_vertex_first_on_ties() {
    let pts = vec![IPoint2 { x: 1, y: 0 }, IPoint2 { x: -1, y: 0 }, IPoint2 { x: 5, y: 5 }];
    assert_eq!(closest_vertex(&pts, IPoint2 { x: 0, y: 0 }), 0);
    assert_eq!(closest_vertex(&pts, IPoint2 { x: 4, y: 4 }), 2);
    assert_eq!(closest_vertex(&[], IPoint2 { x: 0, y: 0 }), 0);
}

#[test]
fn seam_position_default_is_aligned() {
    assert_eq!(SeamPosition::default(), SeamPosition::Aligned);
}

#[test]
fn random_small_layers_exact() {
    assert_eq!(select_random(4, 0), 0);
    assert_eq!(select_random(4, 1), 3);
}
