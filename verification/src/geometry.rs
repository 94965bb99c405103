//! Integer geometry of pointer gestures: path lengths, rectangles, ellipses.
//!
//! Pointer positions are whole pixels; lengths are returned in thousandths of a
//! pixel, rounded down.

use vstd::prelude::*;

verus! {

/// Whether `root` is the integer part of the square root of `n`.
pub open spec fn is_floor_sqrt(n: nat, root: nat) -> bool {
    root * root <= n < (root + 1) * (root + 1)
}

/// The integer part of the square root of `n`.
pub open spec fn floor_sqrt(n: nat) -> nat {
    choose|root: nat| is_floor_sqrt(n, root)
}

/// Every natural number has an integer square root.
pub proof fn lemma_floor_sqrt_exists(n: nat)
    ensures
        is_floor_sqrt(n, floor_sqrt(n)),
    decreases n,
{
    if n == 0 {
        assert(is_floor_sqrt(0, 0)) by (nonlinear_arith);
    } else {
        lemma_floor_sqrt_exists((n - 1) as nat);
        let below = floor_sqrt((n - 1) as nat);
        if (below + 1) * (below + 1) <= n {
            assert(n < (below + 2) * (below + 2)) by (nonlinear_arith)
                requires
                    n - 1 < (below + 1) * (below + 1),
            ;
            assert(is_floor_sqrt(n, below + 1));
        } else {
            assert(is_floor_sqrt(n, below));
        }
    }
}

/// The integer square root is unique.
pub proof fn lemma_floor_sqrt_unique(n: nat, root: nat)
    requires
        is_floor_sqrt(n, root),
    ensures
        floor_sqrt(n) == root,
{
    lemma_floor_sqrt_exists(n);
    let other = floor_sqrt(n);
    assert(other == root) by (nonlinear_arith)
        requires
            root * root <= n < (root + 1) * (root + 1),
            other * other <= n < (other + 1) * (other + 1),
    ;
}

/// Computes the integer part of the square root of `n` by bisection.
pub fn isqrt(n: u128) -> (root: u64)
    ensures
        root == floor_sqrt(n as nat),
        is_floor_sqrt(n as nat, root as nat),
{
    let mut low: u128 = 0;
    let mut high: u128 = 0x1_0000_0000_0000_0000;
    assert(n < high * high) by (nonlinear_arith)
        requires
            high == 0x1_0000_0000_0000_0000,
            n <= u128::MAX,
    ;
    while high - low > 1
        invariant
            low < high <= 0x1_0000_0000_0000_0000,
            low * low <= n < high * high,
        decreases high - low,
    {
        let middle: u128 = low + (high - low) / 2;
        assert(middle * middle <= u128::MAX) by (nonlinear_arith)
            requires
                middle <= 0xffff_ffff_ffff_ffff,
        ;
        if middle * middle <= n {
            low = middle;
        } else {
            high = middle;
        }
    }
    proof {
        lemma_floor_sqrt_unique(n as nat, low as nat);
    }
    low as u64
}

/// Squared Euclidean distance between two pointer positions, in square pixels.
pub open spec fn squared_distance(from: (i32, i32), to: (i32, i32)) -> nat {
    let dx = to.0 - from.0;
    let dy = to.1 - from.1;
    (dx * dx + dy * dy) as nat
}

/// Euclidean distance between two pointer positions in thousandths of a pixel,
/// rounded down.
pub open spec fn segment_length_spec(from: (i32, i32), to: (i32, i32)) -> nat {
    floor_sqrt(squared_distance(from, to) * 1_000_000)
}

/// Largest value `segment_length` can return: no two pointer positions are
/// further apart than this many thousandths of a pixel.
pub const MAX_SEGMENT_LENGTH: u64 = 0x800_0000_0000;

/// No segment reaches `MAX_SEGMENT_LENGTH`.
pub proof fn lemma_segment_length_bound(from: (i32, i32), to: (i32, i32))
    ensures
        segment_length_spec(from, to) < MAX_SEGMENT_LENGTH,
{
    let dx = to.0 - from.0;
    let dy = to.1 - from.1;
    assert(0 <= dx * dx <= 0x1_0000_0000_0000_0000) by (nonlinear_arith)
        requires
            -0x1_0000_0000 <= dx <= 0x1_0000_0000,
    ;
    assert(0 <= dy * dy <= 0x1_0000_0000_0000_0000) by (nonlinear_arith)
        requires
            -0x1_0000_0000 <= dy <= 0x1_0000_0000,
    ;
    let scaled = squared_distance(from, to) * 1_000_000;
    lemma_floor_sqrt_exists(scaled);
    let length = floor_sqrt(scaled);
    assert(length < MAX_SEGMENT_LENGTH) by (nonlinear_arith)
        requires
            length * length <= scaled,
            scaled <= 0x2_0000_0000_0000_0000 * 1_000_000,
    ;
}

/// Euclidean distance between two pointer positions in thousandths of a pixel,
/// rounded down.
pub fn segment_length(from: (i32, i32), to: (i32, i32)) -> (length: u64)
    ensures
        length == segment_length_spec(from, to),
        length < MAX_SEGMENT_LENGTH,
{
    let dx: i128 = to.0 as i128 - from.0 as i128;
    let dy: i128 = to.1 as i128 - from.1 as i128;
    assert(0 <= dx * dx <= 0x1_0000_0000_0000_0000) by (nonlinear_arith)
        requires
            -0x1_0000_0000 <= dx <= 0x1_0000_0000,
    ;
    assert(0 <= dy * dy <= 0x1_0000_0000_0000_0000) by (nonlinear_arith)
        requires
            -0x1_0000_0000 <= dy <= 0x1_0000_0000,
    ;
    let squared: i128 = dx * dx + dy * dy;
    let scaled: u128 = (squared * 1_000_000) as u128;
    let length: u64 = isqrt(scaled);
    assert(length < MAX_SEGMENT_LENGTH) by (nonlinear_arith)
        requires
            length * length <= scaled,
            scaled <= 0x2_0000_0000_0000_0000 * 1_000_000,
    ;
    length
}

/// Length of the path through the first `upto + 1` of `points`, in
/// thousandths of a pixel: the sum of the lengths of its segments, each
/// rounded down.
pub open spec fn path_length(points: Seq<(i32, i32)>, upto: int) -> nat
    decreases upto,
{
    if upto <= 0 {
        0
    } else {
        path_length(points, upto - 1) + segment_length_spec(points[upto - 1], points[upto])
    }
}

/// A path never gets shorter as it goes on.
pub proof fn lemma_path_length_grows(points: Seq<(i32, i32)>, earlier: int, later: int)
    requires
        earlier <= later,
    ensures
        path_length(points, earlier) <= path_length(points, later),
    decreases later - earlier,
{
    if earlier < later {
        lemma_path_length_grows(points, earlier, later - 1);
    }
}

/// A path of `upto` segments is no longer than `upto` times the longest
/// possible segment.
pub proof fn lemma_path_length_bound(points: Seq<(i32, i32)>, upto: int)
    requires
        0 <= upto,
    ensures
        path_length(points, upto) <= upto * MAX_SEGMENT_LENGTH,
    decreases upto,
{
    if upto > 0 {
        lemma_path_length_bound(points, upto - 1);
        lemma_segment_length_bound(points[upto - 1], points[upto]);
    }
}

/// Length of the diagonal of a `w` by `h` rectangle in thousandths of a
/// pixel, rounded down.
pub open spec fn diagonal_spec(w: int, h: int) -> nat {
    floor_sqrt(((w * w + h * h) * 1_000_000) as nat)
}

/// Length of the diagonal of a `w` by `h` rectangle in thousandths of a
/// pixel, rounded down.
pub fn diagonal(w: i32, h: i32) -> (length: u64)
    ensures
        length == diagonal_spec(w as int, h as int),
        length < MAX_SEGMENT_LENGTH,
{
    proof {
        let dx = w - 0;
        let dy = h - 0;
        assert(dx * dx + dy * dy == w * w + h * h) by (nonlinear_arith)
            requires
                dx == w,
                dy == h,
        ;
        assert(w * w + h * h >= 0) by (nonlinear_arith);
    }
    segment_length((0, 0), (w, h))
}

/// Copies a list of pointer positions.
pub fn copy_points(points: &Vec<(i32, i32)>) -> (copy: Vec<(i32, i32)>)
    ensures
        copy@ == points@,
{
    let mut copy: Vec<(i32, i32)> = Vec::new();
    let mut index: usize = 0;
    while index < points.len()
        invariant
            index <= points.len(),
            copy@ == points@.subrange(0, index as int),
        decreases points.len() - index,
    {
        copy.push(points[index]);
        index = index + 1;
    }
    copy
}

/// The smaller of the two ends of a drag along one axis.
pub open spec fn span_origin(start: int, current: int) -> int {
    if current >= start {
        start
    } else {
        current
    }
}

/// The distance between the two ends of a drag along one axis.
pub open spec fn span_extent(start: int, current: int) -> int {
    if current >= start {
        current - start
    } else {
        start - current
    }
}

/// Whether the extent of a drag along one axis can be held in an `i32`.
pub open spec fn span_fits(start: int, current: int) -> bool {
    span_extent(start, current) <= i32::MAX
}

/// Whether the extent of a drag along one axis can be held in an `i32`.
pub fn fits_span(start: i32, current: i32) -> (fits: bool)
    ensures
        fits == span_fits(start as int, current as int),
{
    let extent: i64 = if current >= start {
        current as i64 - start as i64
    } else {
        start as i64 - current as i64
    };
    extent <= i32::MAX as i64
}

/// Orders the two ends of a drag along one axis: returns the smaller end and
/// the distance between them, whichever way the pointer was dragged.
pub fn normalize_span(start: i32, current: i32) -> (span: (i32, i32))
    requires
        span_fits(start as int, current as int),
    ensures
        span.0 == span_origin(start as int, current as int),
        span.1 == span_extent(start as int, current as int),
        span.1 >= 0,
{
    if current >= start {
        (start, current - start)
    } else {
        (current, start - current)
    }
}

/// The span covers both ends of the drag.
pub proof fn lemma_span_covers(a: int, b: int)
    ensures
        span_extent(a, b) >= 0,
        span_origin(a, b) <= a <= span_origin(a, b) + span_extent(a, b),
        span_origin(a, b) <= b <= span_origin(a, b) + span_extent(a, b),
        span_origin(a, b) == a || span_origin(a, b) == b,
        span_origin(a, b) + span_extent(a, b) == a || span_origin(a, b) + span_extent(a, b) == b,
{
}

/// Dragging from one end to the other or back gives the same span.
pub proof fn lemma_span_symmetric(a: int, b: int)
    ensures
        span_origin(a, b) == span_origin(b, a),
        span_extent(a, b) == span_extent(b, a),
        span_fits(a, b) == span_fits(b, a),
{
}

/// Half of `value`, rounded toward zero.
pub open spec fn half_toward_zero(value: int) -> int {
    if value >= 0 {
        value / 2
    } else {
        -((-value) / 2)
    }
}

/// Centre and radii of the ellipse inscribed in the box spanned by two
/// opposite corners: `(cx, cy, rx, ry)`. The centre is the midpoint rounded
/// toward zero; each radius is half the extent, rounded down.
pub open spec fn ellipse_bounds_spec(x1: int, y1: int, x2: int, y2: int) -> (int, int, int, int) {
    (
        half_toward_zero(x1 + x2),
        half_toward_zero(y1 + y2),
        span_extent(x1, x2) / 2,
        span_extent(y1, y2) / 2,
    )
}

/// Midpoint of two coordinates, rounded toward zero.
fn midpoint(a: i32, b: i32) -> (middle: i32)
    ensures
        middle == half_toward_zero(a + b),
{
    let sum: i64 = a as i64 + b as i64;
    (sum / 2) as i32
}

/// Half the distance between two coordinates, rounded down.
fn half_extent(a: i32, b: i32) -> (radius: i32)
    ensures
        radius == span_extent(a as int, b as int) / 2,
        radius >= 0,
{
    let difference: i64 = b as i64 - a as i64;
    let extent: i64 = if difference >= 0 {
        difference
    } else {
        -difference
    };
    (extent / 2) as i32
}

/// Centre and radii of the ellipse inscribed in the box spanned by two
/// opposite corners, as `(cx, cy, rx, ry)`.
pub fn ellipse_bounds(x1: i32, y1: i32, x2: i32, y2: i32) -> (bounds: (i32, i32, i32, i32))
    ensures
        bounds.0 == ellipse_bounds_spec(x1 as int, y1 as int, x2 as int, y2 as int).0,
        bounds.1 == ellipse_bounds_spec(x1 as int, y1 as int, x2 as int, y2 as int).1,
        bounds.2 == ellipse_bounds_spec(x1 as int, y1 as int, x2 as int, y2 as int).2,
        bounds.3 == ellipse_bounds_spec(x1 as int, y1 as int, x2 as int, y2 as int).3,
        bounds.2 >= 0,
        bounds.3 >= 0,
{
    (midpoint(x1, x2), midpoint(y1, y2), half_extent(x1, x2), half_extent(y1, y2))
}

} // verus!
