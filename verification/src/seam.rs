//! Seam placement: choosing the vertex where a perimeter loop starts.
//!
//! The integer strategies are here: aligned (closest to the previous seam,
//! or the rear), deterministic pseudo-random, and rear (maximum Y).

use vstd::prelude::*;

verus! {

/// Seam placement strategy.
#[derive(Debug, Clone, Copy, PartialEq, Eq, Structural)]
pub enum SeamPosition {
    /// Align seam points vertically across layers: the vertex closest to the
    /// previous seam point, or the rear vertex when there is none.
    Aligned,
    /// Deterministic pseudo-random placement seeded by the layer index.
    Random,
    /// The vertex with maximum Y; ties go to the vertex closest to the
    /// previous seam, or else to the smallest X.
    Rear,
    /// Prefer concave corners, then convex ones, with an alignment bias.
    NearestCorner,
}

impl Default for SeamPosition {
    fn default() -> (r: Self)
        ensures
            r == SeamPosition::Aligned,
    {
        SeamPosition::Aligned
    }
}

/// A point in integer coordinates.
#[derive(Debug, Clone, Copy, PartialEq, Eq, Structural)]
pub struct IPoint2 {
    pub x: i64,
    pub y: i64,
}

/// Squared Euclidean distance between two points.
pub open spec fn dist_sq(a: IPoint2, b: IPoint2) -> int {
    (a.x - b.x) * (a.x - b.x) + (a.y - b.y) * (a.y - b.y)
}

/// The coordinate differences of `a` and `b` fit in `i64` and their squared
/// distance fits in `i128`.
pub open spec fn dist_fits(a: IPoint2, b: IPoint2) -> bool {
    &&& i64::MIN <= a.x - b.x <= i64::MAX
    &&& i64::MIN <= a.y - b.y <= i64::MAX
    &&& dist_sq(a, b) <= i128::MAX
}

/// Squared distance between two integer points, as `i128`.
pub fn distance_squared_i64(a: IPoint2, b: IPoint2) -> (r: i128)
    requires
        dist_fits(a, b),
    ensures
        r == dist_sq(a, b),
{
    let dx = (a.x - b.x) as i128;
    let dy = (a.y - b.y) as i128;
    assert(dx * dx >= 0) by (nonlinear_arith);
    assert(dy * dy >= 0) by (nonlinear_arith);
    dx * dx + dy * dy
}

/// Every point of `pts` is at a representable squared distance from `p`.
pub open spec fn all_dist_fit(pts: Seq<IPoint2>, p: IPoint2) -> bool {
    forall|i: int| 0 <= i < pts.len() ==> dist_fits(#[trigger] pts[i], p)
}

/// `i` is the first index of a point of `pts` nearest to `target`
/// (0 when `pts` is empty).
pub open spec fn is_first_nearest(pts: Seq<IPoint2>, target: IPoint2, i: int) -> bool {
    if pts.len() == 0 {
        i == 0
    } else {
        &&& 0 <= i < pts.len()
        &&& forall|j: int| 0 <= j < pts.len() ==> dist_sq(pts[i], target) <= dist_sq(#[trigger] pts[j], target)
        &&& forall|j: int| 0 <= j < i ==> dist_sq(pts[i], target) < dist_sq(#[trigger] pts[j], target)
    }
}

/// Finds the index of the vertex closest to `target` (the first one on ties).
pub fn closest_vertex(pts: &[IPoint2], target: IPoint2) -> (r: usize)
    requires
        all_dist_fit(pts@, target),
    ensures
        is_first_nearest(pts@, target, r as int),
{
    let mut best_idx: usize = 0;
    let mut best_dist: i128 = i128::MAX;
    let mut i: usize = 0;
    while i < pts.len()
        invariant
            all_dist_fit(pts@, target),
            i <= pts@.len(),
            i == 0 ==> best_idx == 0 && best_dist == i128::MAX,
            i > 0 ==> {
                &&& best_idx < i
                &&& best_dist == dist_sq(pts@[best_idx as int], target)
                &&& forall|j: int| 0 <= j < i ==> best_dist <= dist_sq(#[trigger] pts@[j], target)
                &&& forall|j: int| 0 <= j < best_idx ==> best_dist < dist_sq(#[trigger] pts@[j], target)
            },
        decreases pts@.len() - i,
    {
        let pt = pts[i];
        assert(dist_fits(pts@[i as int], target));
        let dist = distance_squared_i64(pt, target);
        if dist < best_dist {
            best_dist = dist;
            best_idx = i;
        }
        i = i + 1;
    }
    best_idx
}

/// The tie-break measure of a point: its squared distance to the tie-break
/// point if there is one, else its X coordinate.
pub open spec fn tiebreak_of(p: IPoint2, tb: Option<IPoint2>) -> int {
    match tb {
        Some(q) => dist_sq(p, q),
        None => p.x as int,
    }
}

/// `p` ranks before `q` for the rear seam: higher Y, or the same Y and a
/// smaller tie-break measure.
pub open spec fn rear_before(p: IPoint2, q: IPoint2, tb: Option<IPoint2>) -> bool {
    p.y > q.y || (p.y == q.y && tiebreak_of(p, tb) < tiebreak_of(q, tb))
}

/// `i` is the first index of a point of `pts` that no other point ranks
/// before (0 when `pts` is empty).
pub open spec fn is_first_rear(pts: Seq<IPoint2>, tb: Option<IPoint2>, i: int) -> bool {
    if pts.len() == 0 {
        i == 0
    } else {
        &&& 0 <= i < pts.len()
        &&& forall|j: int| 0 <= j < pts.len() ==> !rear_before(#[trigger] pts[j], pts[i], tb)
        &&& forall|j: int| 0 <= j < i ==> rear_before(pts[i], #[trigger] pts[j], tb)
    }
}

/// The tie-break measures of all points are representable.
pub open spec fn tiebreak_fits(pts: Seq<IPoint2>, tb: Option<IPoint2>) -> bool {
    match tb {
        Some(q) => all_dist_fit(pts, q),
        None => true,
    }
}

/// The tie-break measure of `pt`.
fn tiebreak(pt: IPoint2, tiebreak_point: Option<IPoint2>) -> (r: i128)
    requires
        match tiebreak_point {
            Some(q) => dist_fits(pt, q),
            None => true,
        },
    ensures
        r == tiebreak_of(pt, tiebreak_point),
{
    match tiebreak_point {
        Some(prev) => distance_squared_i64(pt, prev),
        None => pt.x as i128,
    }
}

/// Finds the index of the vertex with maximum Y coordinate. Ties go to the
/// vertex closest to `tiebreak_point` if given, otherwise to the smallest X;
/// remaining ties to the first such vertex.
pub fn max_y_vertex(pts: &[IPoint2], tiebreak_point: Option<IPoint2>) -> (r: usize)
    requires
        tiebreak_fits(pts@, tiebreak_point),
    ensures
        is_first_rear(pts@, tiebreak_point, r as int),
{
    let mut best_idx: usize = 0;
    let mut best_y: i64 = i64::MIN;
    let mut best_tiebreak: i128 = i128::MAX;
    let mut i: usize = 0;
    while i < pts.len()
        invariant
            tiebreak_fits(pts@, tiebreak_point),
            i <= pts@.len(),
            i == 0 ==> best_idx == 0 && best_y == i64::MIN && best_tiebreak == i128::MAX,
            i > 0 ==> {
                &&& best_idx < i
                &&& best_y == pts@[best_idx as int].y
                &&& best_tiebreak == tiebreak_of(pts@[best_idx as int], tiebreak_point)
                &&& forall|j: int| 0 <= j < i ==> !rear_before(#[trigger] pts@[j], pts@[best_idx as int], tiebreak_point)
                &&& forall|j: int| 0 <= j < best_idx ==> rear_before(pts@[best_idx as int], #[trigger] pts@[j], tiebreak_point)
            },
        decreases pts@.len() - i,
    {
        let pt = pts[i];
        proof {
            if let Some(q) = tiebreak_point {
                assert(dist_fits(pts@[i as int], q));
            }
        }
        let tb = tiebreak(pt, tiebreak_point);
        if pt.y > best_y || (pt.y == best_y && tb < best_tiebreak) {
            best_y = pt.y;
            best_tiebreak = tb;
            best_idx = i;
        }
        i = i + 1;
    }
    best_idx
}

/// Aligned: the vertex closest to `previous_seam`, or the rear vertex
/// (smallest X on ties) when there is no previous seam.
pub fn select_aligned(pts: &[IPoint2], previous_seam: Option<IPoint2>) -> (r: usize)
    requires
        match previous_seam {
            Some(prev) => all_dist_fit(pts@, prev),
            None => true,
        },
    ensures
        match previous_seam {
            Some(prev) => is_first_nearest(pts@, prev, r as int),
            None => is_first_rear(pts@, None, r as int),
        },
{
    match previous_seam {
        Some(prev) => closest_vertex(pts, prev),
        None => max_y_vertex(pts, None),
    }
}

/// The Knuth multiplicative hash of a layer index: the 64-bit wrapping product
/// with 2654435761, shifted right by 16.
pub open spec fn layer_hash(layer_index: usize) -> u64 {
    ((layer_index as int * 2654435761) % 0x1_0000_0000_0000_0000) as u64 >> 16u64
}

/// Random: deterministic pseudo-random vertex selection from the layer index
/// (the hash is truncated to `usize` where that is narrower than 64 bits).
pub fn select_random(n: usize, layer_index: usize) -> (r: usize)
    requires
        n > 0,
    ensures
        r == (layer_hash(layer_index) as usize) as int % n as int,
        r < n,
{
    let seed = layer_index as u64;
    let product = seed.wrapping_mul(2654435761);
    assert(product == (layer_index as int * 2654435761) % 0x1_0000_0000_0000_0000);
    let hash = product >> 16;
    let h = #[verifier::truncate] (hash as usize);
    h % n
}

/// Rear: the vertex with maximum Y, ties broken by proximity to the previous
/// seam or else by smallest X.
pub fn select_rear(pts: &[IPoint2], previous_seam: Option<IPoint2>) -> (r: usize)
    requires
        tiebreak_fits(pts@, previous_seam),
    ensures
        is_first_rear(pts@, previous_seam, r as int),
{
    max_y_vertex(pts, previous_seam)
}

/// The cross product of the edges entering and leaving `curr`.
pub open spec fn turn_cross(prev: IPoint2, curr: IPoint2, next: IPoint2) -> int {
    (curr.x - prev.x) * (next.y - curr.y) - (curr.y - prev.y) * (next.x - curr.x)
}

/// The edge vectors around `curr` fit in `i64` and their cross product in `i128`.
pub open spec fn turn_fits(prev: IPoint2, curr: IPoint2, next: IPoint2) -> bool {
    &&& i64::MIN <= curr.x - prev.x <= i64::MAX
    &&& i64::MIN <= curr.y - prev.y <= i64::MAX
    &&& i64::MIN <= next.x - curr.x <= i64::MAX
    &&& i64::MIN <= next.y - curr.y <= i64::MAX
    &&& i128::MIN <= turn_cross(prev, curr, next) <= i128::MAX
}

/// The product of two values in the `i64` range is at most 2^126 in size.
proof fn lemma_i64_product_bound(x: int, y: int)
    requires
        -0x8000_0000_0000_0000 <= x <= 0x7fff_ffff_ffff_ffff,
        -0x8000_0000_0000_0000 <= y <= 0x7fff_ffff_ffff_ffff,
    ensures
        -0x4000_0000_0000_0000_0000_0000_0000_0000 <= x * y <= 0x4000_0000_0000_0000_0000_0000_0000_0000,
{
    assert(-0x4000_0000_0000_0000_0000_0000_0000_0000 <= x * y <= 0x4000_0000_0000_0000_0000_0000_0000_0000)
        by (nonlinear_arith)
        requires
            -0x8000_0000_0000_0000 <= x <= 0x7fff_ffff_ffff_ffff,
            -0x8000_0000_0000_0000 <= y <= 0x7fff_ffff_ffff_ffff,
    ;
}

/// Whether `curr` is a reflex (concave) corner of a counter-clockwise
/// polygon: the path turns right there.
pub fn is_reflex_corner(prev: IPoint2, curr: IPoint2, next: IPoint2) -> (r: bool)
    requires
        turn_fits(prev, curr, next),
    ensures
        r == (turn_cross(prev, curr, next) < 0),
{
    let edge_in_x = (curr.x - prev.x) as i128;
    let edge_in_y = (curr.y - prev.y) as i128;
    let edge_out_x = (next.x - curr.x) as i128;
    let edge_out_y = (next.y - curr.y) as i128;
    proof {
        lemma_i64_product_bound(edge_in_x as int, edge_out_y as int);
        lemma_i64_product_bound(edge_in_y as int, edge_out_x as int);
    }
    let a = edge_in_x * edge_out_y;
    let b = edge_in_y * edge_out_x;
    let cross = a - b;
    cross < 0
}

/// On a non-empty polygon the rear vertex has the largest Y of all vertices.
pub proof fn lemma_rear_has_max_y(pts: Seq<IPoint2>, tb: Option<IPoint2>, i: int)
    requires
        pts.len() > 0,
        is_first_rear(pts, tb, i),
    ensures
        forall|j: int| 0 <= j < pts.len() ==> #[trigger] pts[j].y <= pts[i].y,
{
    assert forall|j: int| 0 <= j < pts.len() implies #[trigger] pts[j].y <= pts[i].y by {
        assert(!rear_before(pts[j], pts[i], tb));
    }
}

} // verus!
