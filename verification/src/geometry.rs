use vstd::prelude::*;

verus! {

/// A screen rectangle, edges in pixels.
#[derive(Clone, Copy, Debug, PartialEq, Eq, Structural)]
pub struct Bounds {
    pub left: i32,
    pub top: i32,
    pub right: i32,
    pub bottom: i32,
}

pub open spec fn in_i32(v: int) -> bool {
    i32::MIN <= v <= i32::MAX
}

/// How far `v` lies outside the interval from `lo` to `hi` (0 inside it).
pub open spec fn axis_gap(v: int, lo: int, hi: int) -> int {
    if v < lo {
        lo - v
    } else if v > hi {
        v - hi
    } else {
        0
    }
}

/// Squared distance from the point to the nearest point of the rectangle.
pub open spec fn distance_sq(x: int, y: int, b: Bounds) -> int {
    let dx = axis_gap(x, b.left as int, b.right as int);
    let dy = axis_gap(y, b.top as int, b.bottom as int);
    dx * dx + dy * dy
}

/// The per-axis gaps of `distance_sq` are computed in `i32`; this says they fit.
pub open spec fn distance_fits(x: int, y: int, b: Bounds) -> bool {
    &&& axis_gap(x, b.left as int, b.right as int) <= i32::MAX
    &&& axis_gap(y, b.top as int, b.bottom as int) <= i32::MAX
}

proof fn lemma_square_sum_fits(dx: int, dy: int)
    requires
        0 <= dx <= i32::MAX,
        0 <= dy <= i32::MAX,
    ensures
        0 <= dx * dx + dy * dy <= i64::MAX,
{
    assert(dx * dx <= 0x7fff_ffff * 0x7fff_ffff) by (nonlinear_arith)
        requires
            0 <= dx <= 0x7fff_ffff,
    ;
    assert(dy * dy <= 0x7fff_ffff * 0x7fff_ffff) by (nonlinear_arith)
        requires
            0 <= dy <= 0x7fff_ffff,
    ;
}

fn axis_gap_exec(v: i32, lo: i32, hi: i32) -> (gap: i32)
    requires
        axis_gap(v as int, lo as int, hi as int) <= i32::MAX,
    ensures
        gap == axis_gap(v as int, lo as int, hi as int),
        gap >= 0,
{
    if v < lo {
        lo - v
    } else if v > hi {
        v - hi
    } else {
        0
    }
}

/// Squared distance from the point `(x, y)` to `bounds` (0 when the point is inside).
pub fn distance_to_bounds(x: i32, y: i32, bounds: Bounds) -> (d: i64)
    requires
        distance_fits(x as int, y as int, bounds),
    ensures
        d == distance_sq(x as int, y as int, bounds),
        d >= 0,
{
    let dx = axis_gap_exec(x, bounds.left, bounds.right);
    let dy = axis_gap_exec(y, bounds.top, bounds.bottom);
    proof {
        lemma_square_sum_fits(dx as int, dy as int);
    }
    (dx as i64) * (dx as i64) + (dy as i64) * (dy as i64)
}

/// Whether `distance_to_bounds` can be computed for this point and rectangle.
pub fn distance_in_range(x: i32, y: i32, bounds: Bounds) -> (ok: bool)
    ensures
        ok == distance_fits(x as int, y as int, bounds),
{
    let gx: i64 = if (x as i64) < (bounds.left as i64) {
        bounds.left as i64 - x as i64
    } else if (x as i64) > (bounds.right as i64) {
        x as i64 - bounds.right as i64
    } else {
        0
    };
    let gy: i64 = if (y as i64) < (bounds.top as i64) {
        bounds.top as i64 - y as i64
    } else if (y as i64) > (bounds.bottom as i64) {
        y as i64 - bounds.bottom as i64
    } else {
        0
    };
    gx <= i32::MAX as i64 && gy <= i32::MAX as i64
}

/// A point lies at distance 0 from a rectangle exactly when it is inside it.
pub proof fn lemma_distance_zero_iff_inside(x: int, y: int, b: Bounds)
    ensures
        distance_sq(x, y, b) >= 0,
        distance_sq(x, y, b) == 0 <==> (b.left <= x <= b.right && b.top <= y <= b.bottom),
{
    let dx = axis_gap(x, b.left as int, b.right as int);
    let dy = axis_gap(y, b.top as int, b.bottom as int);
    assert(distance_sq(x, y, b) == dx * dx + dy * dy);
    assert(dx == 0 <==> b.left <= x <= b.right);
    assert(dy == 0 <==> b.top <= y <= b.bottom);
    lemma_sum_of_squares_zero(dx, dy);
}

proof fn lemma_sum_of_squares_zero(dx: int, dy: int)
    by (nonlinear_arith)
    requires
        dx >= 0,
        dy >= 0,
    ensures
        dx * dx + dy * dy >= 0,
        dx * dx + dy * dy == 0 <==> (dx == 0 && dy == 0),
{
}

/// Integer halving that rounds toward zero.
pub open spec fn half_toward_zero(v: int) -> int {
    if v >= 0 {
        v / 2
    } else {
        -((-v) / 2)
    }
}

/// The centre of a rectangle, rounded toward its top-left edge.
pub open spec fn center_of(b: Bounds) -> (int, int) {
    (
        b.left + half_toward_zero(b.right - b.left),
        b.top + half_toward_zero(b.bottom - b.top),
    )
}

/// The size computations of `center_of` fit in `i32`.
pub open spec fn center_fits(b: Bounds) -> bool {
    in_i32(b.right - b.left) && in_i32(b.bottom - b.top)
}

/// The centre of the window's current rectangle, or the origin when it is unknown.
pub fn window_center(current: Option<Bounds>) -> (center: (i32, i32))
    requires
        current matches Some(b) ==> center_fits(b),
    ensures
        match current {
            Some(b) => center.0 == center_of(b).0 && center.1 == center_of(b).1,
            None => center.0 == 0 && center.1 == 0,
        },
{
    match current {
        Some(b) => {
            let w: i32 = b.right - b.left;
            let h: i32 = b.bottom - b.top;
            let hw: i32 = w / 2;
            let hh: i32 = h / 2;
            assert(hw == half_toward_zero(w as int));
            assert(hh == half_toward_zero(h as int));
            (b.left + hw, b.top + hh)
        },
        None => (0, 0),
    }
}

/// `i` is the first index whose rectangle is nearest to the point.
pub open spec fn is_first_nearest(x: int, y: int, all: Seq<Bounds>, i: int) -> bool {
    &&& 0 <= i < all.len()
    &&& forall|j: int| 0 <= j < all.len() ==> distance_sq(x, y, all[i]) <= distance_sq(x, y, all[j])
    &&& forall|j: int| 0 <= j < i ==> distance_sq(x, y, all[j]) > distance_sq(x, y, all[i])
}

/// The rectangle nearest to the point; among equally near ones the first.
/// `None` exactly when there is no rectangle.
pub fn nearest_bounds(x: i32, y: i32, all: &Vec<Bounds>) -> (chosen: Option<usize>)
    requires
        forall|j: int| 0 <= j < all@.len() ==> distance_fits(x as int, y as int, #[trigger] all@[j]),
    ensures
        chosen is None <==> all@.len() == 0,
        chosen matches Some(i) ==> is_first_nearest(x as int, y as int, all@, i as int),
{
    if all.len() == 0 {
        return None;
    }
    let mut best: usize = 0;
    let mut best_d: i64 = distance_to_bounds(x, y, all[0]);
    let mut k: usize = 1;
    while k < all.len()
        invariant
            1 <= k <= all@.len(),
            best < k,
            forall|j: int| 0 <= j < all@.len() ==> distance_fits(x as int, y as int, #[trigger] all@[j]),
            best_d == distance_sq(x as int, y as int, all@[best as int]),
            forall|j: int| 0 <= j < k ==> best_d <= distance_sq(x as int, y as int, #[trigger] all@[j]),
            forall|j: int| 0 <= j < best ==> best_d < distance_sq(x as int, y as int, #[trigger] all@[j]),
        decreases all@.len() - k,
    {
        let d = distance_to_bounds(x, y, all[k]);
        if d < best_d {
            best = k;
            best_d = d;
        }
        k = k + 1;
    }
    Some(best)
}

/// Where the widget goes on a taskbar, in screen coordinates.
pub open spec fn placement_spec(taskbar: Bounds, offset: int, width: int, height: int) -> (int, int, int, int) {
    let tw = if taskbar.right - taskbar.left >= 1 { taskbar.right - taskbar.left } else { 1 };
    let th = if taskbar.bottom - taskbar.top >= 1 { taskbar.bottom - taskbar.top } else { 1 };
    if tw >= th {
        let w = if width <= tw { width } else { tw };
        let hi = if taskbar.right - w >= taskbar.left { taskbar.right - w } else { taskbar.left as int };
        let want = taskbar.left + offset;
        let x = if want < taskbar.left { taskbar.left as int } else if want > hi { hi } else { want };
        (x, taskbar.top as int, w, th)
    } else {
        let h = if height <= th { height } else { th };
        let hi = if taskbar.bottom - h >= taskbar.top { taskbar.bottom - h } else { taskbar.top as int };
        let want = taskbar.top + offset;
        let y = if want < taskbar.top { taskbar.top as int } else if want > hi { hi } else { want };
        (taskbar.left as int, y, tw, h)
    }
}

/// Every intermediate value of the placement computation fits in `i32`.
pub open spec fn placement_fits(taskbar: Bounds, offset: int, width: int, height: int) -> bool {
    let p = placement_spec(taskbar, offset, width, height);
    let tw = if taskbar.right - taskbar.left >= 1 { taskbar.right - taskbar.left } else { 1 };
    let th = if taskbar.bottom - taskbar.top >= 1 { taskbar.bottom - taskbar.top } else { 1 };
    &&& in_i32(taskbar.right - taskbar.left)
    &&& in_i32(taskbar.bottom - taskbar.top)
    &&& (tw >= th ==> in_i32(taskbar.left + offset) && in_i32(taskbar.right - p.2))
    &&& (tw < th ==> in_i32(taskbar.top + offset) && in_i32(taskbar.bottom - p.3))
    &&& in_i32(p.0 + p.2)
    &&& in_i32(p.1 + p.3)
}

/// The rectangle that `placement_spec` describes.
pub open spec fn placement_bounds(taskbar: Bounds, offset: int, width: int, height: int) -> Bounds {
    let p = placement_spec(taskbar, offset, width, height);
    Bounds {
        left: p.0 as i32,
        top: p.1 as i32,
        right: (p.0 + p.2) as i32,
        bottom: (p.1 + p.3) as i32,
    }
}

/// The widget's placement on a taskbar.
#[derive(Clone, Copy, Debug, PartialEq, Eq, Structural)]
pub struct Placement {
    pub bounds: Bounds,
    pub width: i32,
    pub height: i32,
}

/// Places the widget on `taskbar`. `offset`, `width` and `height` are the
/// widget's inset from the taskbar's start and its size, already scaled to the
/// taskbar's DPI. A horizontal taskbar gets a widget of its full height near its
/// left edge; a vertical one a widget of its full width near its top edge; the
/// widget is clamped to the taskbar. `None` exactly when a coordinate leaves `i32`.
pub fn taskbar_placement(taskbar: Bounds, offset: i32, width: i32, height: i32) -> (placed: Option<Placement>)
    requires
        offset >= 0,
        width >= 0,
        height >= 0,
    ensures
        placed is Some <==> placement_fits(taskbar, offset as int, width as int, height as int),
        placed matches Some(p) ==> {
            &&& p.bounds == placement_bounds(taskbar, offset as int, width as int, height as int)
            &&& p.width == placement_spec(taskbar, offset as int, width as int, height as int).2
            &&& p.height == placement_spec(taskbar, offset as int, width as int, height as int).3
        },
{
    let ghost spec_p = placement_spec(taskbar, offset as int, width as int, height as int);
    let span_x: i64 = taskbar.right as i64 - taskbar.left as i64;
    let span_y: i64 = taskbar.bottom as i64 - taskbar.top as i64;
    if span_x < i32::MIN as i64 || span_x > i32::MAX as i64 || span_y < i32::MIN as i64 || span_y
        > i32::MAX as i64 {
        return None;
    }
    let tw: i64 = if span_x >= 1 { span_x } else { 1 };
    let th: i64 = if span_y >= 1 { span_y } else { 1 };
    let left = taskbar.left as i64;
    let top = taskbar.top as i64;
    let right = taskbar.right as i64;
    let bottom = taskbar.bottom as i64;
    let (x, y, w, h): (i64, i64, i64, i64) = if tw >= th {
        let w: i64 = if (width as i64) <= tw { width as i64 } else { tw };
        let want: i64 = left + offset as i64;
        let back: i64 = right - w;
        if want > i32::MAX as i64 || back < i32::MIN as i64 {
            return None;
        }
        let hi: i64 = if back >= left { back } else { left };
        let x: i64 = if want < left { left } else if want > hi { hi } else { want };
        (x, top, w, th)
    } else {
        let h: i64 = if (height as i64) <= th { height as i64 } else { th };
        let want: i64 = top + offset as i64;
        let back: i64 = bottom - h;
        if want > i32::MAX as i64 || back < i32::MIN as i64 {
            return None;
        }
        let hi: i64 = if back >= top { back } else { top };
        let y: i64 = if want < top { top } else if want > hi { hi } else { want };
        (left, y, tw, h)
    };
    assert(x == spec_p.0 && y == spec_p.1 && w == spec_p.2 && h == spec_p.3);
    if x + w > i32::MAX as i64 || y + h > i32::MAX as i64 {
        return None;
    }
    Some(
        Placement {
            bounds: Bounds {
                left: x as i32,
                top: y as i32,
                right: (x + w) as i32,
                bottom: (y + h) as i32,
            },
            width: w as i32,
            height: h as i32,
        },
    )
}

/// On a taskbar of positive size, the widget never leaves the taskbar, and it
/// spans the taskbar's whole thickness.
pub proof fn lemma_placement_inside_taskbar(taskbar: Bounds, offset: int, width: int, height: int)
    requires
        taskbar.left < taskbar.right,
        taskbar.top < taskbar.bottom,
        offset >= 0,
        width >= 0,
        height >= 0,
    ensures
        ({
            let p = placement_spec(taskbar, offset, width, height);
            &&& taskbar.left <= p.0
            &&& p.0 + p.2 <= taskbar.right
            &&& taskbar.top <= p.1
            &&& p.1 + p.3 <= taskbar.bottom
            &&& (taskbar.right - taskbar.left >= taskbar.bottom - taskbar.top ==> p.3 == taskbar.bottom
                - taskbar.top && p.2 <= width)
            &&& (taskbar.right - taskbar.left < taskbar.bottom - taskbar.top ==> p.2 == taskbar.right
                - taskbar.left && p.3 <= height)
        }),
{
}

/// On a taskbar of positive size whose coordinates lie in `i32`, the placement
/// is always computable.
pub proof fn lemma_placement_fits(taskbar: Bounds, offset: int, width: int, height: int)
    requires
        taskbar.left < taskbar.right,
        taskbar.top < taskbar.bottom,
        in_i32(taskbar.right - taskbar.left),
        in_i32(taskbar.bottom - taskbar.top),
        0 <= offset,
        in_i32(taskbar.left + offset),
        in_i32(taskbar.top + offset),
        width >= 0,
        height >= 0,
    ensures
        placement_fits(taskbar, offset, width, height),
{
    lemma_placement_inside_taskbar(taskbar, offset, width, height);
}

} // verus!
