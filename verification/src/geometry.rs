//! Rectangles, centers and the placements that center or resize a window.
//!
//! Coordinates are those of the Win32 API: 32-bit signed integers, with the
//! right and bottom edges exclusive. Halving rounds toward zero, as Rust's
//! integer division does.

use vstd::prelude::*;

verus! {

/// A rectangle given by its edges (the Win32 `RECT`).
#[derive(Clone, Copy, Debug, PartialEq, Eq, Structural)]
pub struct Rect {
    pub left: i32,
    pub top: i32,
    pub right: i32,
    pub bottom: i32,
}

/// A point (the Win32 `POINT`).
#[derive(Clone, Copy, Debug, PartialEq, Eq, Structural)]
pub struct Point {
    pub x: i32,
    pub y: i32,
}

/// A width and a height in signed pixels (the Win32 `SIZE`).
#[derive(Clone, Copy, Debug, PartialEq, Eq, Structural)]
pub struct Size {
    pub cx: i32,
    pub cy: i32,
}

/// The size of a window's client area in physical pixels.
#[derive(Clone, Copy, Debug, PartialEq, Eq, Structural)]
pub struct ClientSize {
    pub width: u32,
    pub height: u32,
}

/// Where a window goes and how large it becomes: the arguments of a
/// `SetWindowPos` call.
#[derive(Clone, Copy, Debug, PartialEq, Eq, Structural)]
pub struct Placement {
    pub x: i32,
    pub y: i32,
    pub cx: i32,
    pub cy: i32,
}

/// Whether `v` is a value of `i32`.
pub open spec fn fits_i32(v: int) -> bool {
    i32::MIN <= v <= i32::MAX
}

/// Half of `v`, rounded toward zero (Rust's `v / 2`).
pub open spec fn half(v: int) -> int {
    if v >= 0 {
        v / 2
    } else {
        -((-v) / 2)
    }
}

/// The center of the span from `lo` to `hi`, as `lo + (hi - lo) / 2`.
pub open spec fn mid(lo: int, hi: int) -> int {
    lo + half(hi - lo)
}

/// `v` reinterpreted as a `u32` (Rust's `v as u32` on an `i32`).
pub open spec fn wrap_u32(v: int) -> int {
    if v >= 0 {
        v
    } else {
        v + 0x1_0000_0000
    }
}

impl Rect {
    pub open spec fn width(self) -> int {
        self.right - self.left
    }

    pub open spec fn height(self) -> int {
        self.bottom - self.top
    }

    /// Whether the width and the height of the rectangle are values of `i32`,
    /// so that computing them does not overflow.
    pub open spec fn measurable(self) -> bool {
        fits_i32(self.width()) && fits_i32(self.height())
    }

    pub open spec fn center_x(self) -> int {
        mid(self.left as int, self.right as int)
    }

    pub open spec fn center_y(self) -> int {
        mid(self.top as int, self.bottom as int)
    }
}

/// Whether the centers of the two rectangles coincide.
pub open spec fn same_center(a: Rect, b: Rect) -> bool {
    a.center_x() == b.center_x() && a.center_y() == b.center_y()
}

/// Whether `center_to_screen` can compute its position without overflow.
pub open spec fn centering_fits(work_area: Rect, window_rect: Rect) -> bool {
    &&& work_area.measurable()
    &&& window_rect.measurable()
    &&& fits_i32(work_area.center_x() - half(window_rect.width()))
    &&& fits_i32(work_area.center_y() - half(window_rect.height()))
}

/// The top-left corner that puts a window of the size of `window_rect` in the
/// middle of `work_area`.
pub open spec fn centered_origin(work_area: Rect, window_rect: Rect) -> (int, int) {
    (
        work_area.center_x() - half(window_rect.width()),
        work_area.center_y() - half(window_rect.height()),
    )
}

/// The window size that gives a client area of `width` by `height` while the
/// frame around the client area stays as it is.
pub open spec fn resized_extent(window_rect: Rect, client_rect: Rect, width: int, height: int) -> (
    int,
    int,
) {
    (
        window_rect.width() + width - client_rect.width(),
        window_rect.height() + height - client_rect.height(),
    )
}

/// The placement that `resize_client` computes.
pub open spec fn resized_placement(
    window_rect: Rect,
    client_rect: Rect,
    width: int,
    height: int,
) -> (int, int, int, int) {
    let (cx, cy) = resized_extent(window_rect, client_rect, width, height);
    (
        window_rect.left + half(window_rect.width()) - half(cx),
        window_rect.top + half(window_rect.height()) - half(cy),
        cx,
        cy,
    )
}

/// Whether `resize_client` can compute its placement without overflow.
pub open spec fn resizing_fits(window_rect: Rect, client_rect: Rect, width: int, height: int) -> bool {
    let (cx, cy) = resized_extent(window_rect, client_rect, width, height);
    let (x, y, _, _) = resized_placement(window_rect, client_rect, width, height);
    &&& window_rect.measurable()
    &&& client_rect.measurable()
    &&& fits_i32(window_rect.width() + width)
    &&& fits_i32(window_rect.height() + height)
    &&& fits_i32(cx)
    &&& fits_i32(cy)
    &&& fits_i32(x)
    &&& fits_i32(y)
}

proof fn lemma_half_bounds(v: int)
    ensures
        v >= 0 ==> 0 <= half(v) <= v,
        v < 0 ==> v <= half(v) <= 0,
{
}

/// Halves `v`, rounding toward zero.
fn halve(v: i32) -> (r: i32)
    ensures
        r == half(v as int),
{
    v / 2
}

/// `lo + (hi - lo) / 2`, where `hi - lo` is a value of `i32`.
fn midpoint(lo: i32, hi: i32) -> (r: i32)
    requires
        fits_i32(hi - lo),
    ensures
        r == mid(lo as int, hi as int),
{
    proof {
        lemma_half_bounds(hi - lo);
    }
    lo + halve(hi - lo)
}

fn in_i32(v: i64) -> (fits: bool)
    ensures
        fits == fits_i32(v as int),
{
    i32::MIN as i64 <= v && v <= i32::MAX as i64
}

/// Halves `v`, rounding toward zero.
fn halve_wide(v: i64) -> (r: i64)
    ensures
        r == half(v as int),
{
    v / 2
}

/// Whether the width and the height of `rect` are values of `i32`.
pub fn is_measurable(rect: &Rect) -> (fits: bool)
    ensures
        fits == rect.measurable(),
{
    in_i32(rect.right as i64 - rect.left as i64) && in_i32(rect.bottom as i64 - rect.top as i64)
}

/// Whether `center_to_screen` can compute the position for these
/// rectangles without overflow.
pub fn can_center(work_area: &Rect, window_rect: &Rect) -> (fits: bool)
    ensures
        fits == centering_fits(*work_area, *window_rect),
{
    if !is_measurable(work_area) || !is_measurable(window_rect) {
        return false;
    }
    let cx: i64 = work_area.left as i64 + halve_wide(work_area.right as i64 - work_area.left as i64);
    let cy: i64 = work_area.top as i64 + halve_wide(work_area.bottom as i64 - work_area.top as i64);
    let hx: i64 = halve_wide(window_rect.right as i64 - window_rect.left as i64);
    let hy: i64 = halve_wide(window_rect.bottom as i64 - window_rect.top as i64);
    in_i32(cx - hx) && in_i32(cy - hy)
}

/// Whether `resize_client` can compute the placement for these arguments
/// without overflow.
pub fn can_resize(window_rect: &Rect, client_rect: &Rect, width: i32, height: i32) -> (fits: bool)
    ensures
        fits == resizing_fits(*window_rect, *client_rect, width as int, height as int),
{
    if !is_measurable(window_rect) || !is_measurable(client_rect) {
        return false;
    }
    let w: i64 = window_rect.right as i64 - window_rect.left as i64;
    let h: i64 = window_rect.bottom as i64 - window_rect.top as i64;
    let cw: i64 = client_rect.right as i64 - client_rect.left as i64;
    let ch: i64 = client_rect.bottom as i64 - client_rect.top as i64;
    let cx: i64 = w + width as i64 - cw;
    let cy: i64 = h + height as i64 - ch;
    in_i32(w + width as i64) && in_i32(h + height as i64) && in_i32(cx) && in_i32(cy) && in_i32(
        window_rect.left as i64 + halve_wide(w) - halve_wide(cx),
    ) && in_i32(window_rect.top as i64 + halve_wide(h) - halve_wide(cy))
}

/// Returns the center of `rect`: the left edge plus half the width, the top
/// edge plus half the height, each half rounded toward zero.
pub fn get_center_of_rect(rect: &Rect) -> (p: Point)
    requires
        rect.measurable(),
    ensures
        p.x == rect.center_x(),
        p.y == rect.center_y(),
{
    Point { x: midpoint(rect.left, rect.right), y: midpoint(rect.top, rect.bottom) }
}

/// Returns the size of a client area from its rectangle, each difference
/// taken as a `u32` (a negative difference wraps around).
pub fn get_client_size(rect: &Rect) -> (size: ClientSize)
    requires
        rect.measurable(),
    ensures
        size.width == wrap_u32(rect.width()),
        size.height == wrap_u32(rect.height()),
{
    let w: i32 = rect.right - rect.left;
    let h: i32 = rect.bottom - rect.top;
    assert(w >= 0 ==> w as u32 == w) by (bit_vector);
    assert(w < 0 ==> w as u32 == w + 0x1_0000_0000) by (bit_vector);
    assert(h >= 0 ==> h as u32 == h) by (bit_vector);
    assert(h < 0 ==> h as u32 == h + 0x1_0000_0000) by (bit_vector);
    ClientSize { width: w as u32, height: h as u32 }
}

/// Whether a window whose rectangle is `window_rect` stands in the middle of
/// `work_area`: whether the two centers are the same point.
pub fn is_centered(work_area: &Rect, window_rect: &Rect) -> (centered: bool)
    requires
        work_area.measurable(),
        window_rect.measurable(),
    ensures
        centered == same_center(*work_area, *window_rect),
{
    let screen_center = get_center_of_rect(work_area);
    let window_center = get_center_of_rect(window_rect);
    window_center == screen_center
}

/// Returns the top-left corner to which a window with rectangle
/// `window_rect` moves, keeping its size, so that it stands in the middle of
/// `work_area`.
pub fn center_to_screen(work_area: &Rect, window_rect: &Rect) -> (origin: Point)
    requires
        centering_fits(*work_area, *window_rect),
    ensures
        (origin.x as int, origin.y as int) == centered_origin(*work_area, *window_rect),
{
    let cx: i32 = midpoint(work_area.left, work_area.right);
    let cy: i32 = midpoint(work_area.top, work_area.bottom);
    let x: i32 = cx - halve(window_rect.right - window_rect.left);
    let y: i32 = cy - halve(window_rect.bottom - window_rect.top);
    Point { x, y }
}

/// Returns the placement that gives the window a client area of `width` by
/// `height`: the window grows or shrinks by the change of the client area,
/// and moves so that its center stays where it was.
pub fn resize_client(window_rect: &Rect, client_rect: &Rect, width: i32, height: i32) -> (placement:
    Placement)
    requires
        resizing_fits(*window_rect, *client_rect, width as int, height as int),
    ensures
        (placement.x as int, placement.y as int, placement.cx as int, placement.cy as int)
            == resized_placement(*window_rect, *client_rect, width as int, height as int),
{
    let old_window_size = Size {
        cx: window_rect.right - window_rect.left,
        cy: window_rect.bottom - window_rect.top,
    };
    let old_client_size = Size {
        cx: client_rect.right - client_rect.left,
        cy: client_rect.bottom - client_rect.top,
    };
    let new_window_size = Size {
        cx: old_window_size.cx + width - old_client_size.cx,
        cy: old_window_size.cy + height - old_client_size.cy,
    };
    proof {
        lemma_half_bounds(old_window_size.cx as int);
        lemma_half_bounds(old_window_size.cy as int);
    }
    let new_x: i32 = window_rect.left + halve(old_window_size.cx) - halve(new_window_size.cx);
    let new_y: i32 = window_rect.top + halve(old_window_size.cy) - halve(new_window_size.cy);
    Placement { x: new_x, y: new_y, cx: new_window_size.cx, cy: new_window_size.cy }
}

/// Halving rounds toward zero: twice the half of a non-negative value is the
/// value or one less, and twice the half of a negative value is the value or
/// one more.
pub proof fn lemma_half_rounds_toward_zero(v: int)
    ensures
        v >= 0 ==> 0 <= v - 2 * half(v) <= 1,
        v < 0 ==> 0 <= 2 * half(v) - v <= 1,
{
}

/// The center that `get_center_of_rect` returns is the left edge plus half
/// the width and the top edge plus half the height, where the width is
/// `right - left` and the height `bottom - top`.
pub proof fn lemma_center_is_edge_plus_half(rect: Rect)
    ensures
        rect.center_x() == rect.left + half(rect.right - rect.left),
        rect.center_y() == rect.top + half(rect.bottom - rect.top),
{
}

/// `is_centered` compares the true centers of the two rectangles, in both
/// directions.
pub proof fn lemma_same_center_compares_centers(a: Rect, b: Rect)
    ensures
        same_center(a, b) <==> (a.left + half(a.right - a.left) == b.left + half(b.right - b.left)
            && a.top + half(a.bottom - a.top) == b.top + half(b.bottom - b.top)),
{
}

/// A window of the size of `window_rect` whose top-left corner is the one
/// `center_to_screen` computes has its center on the work area's center.
pub proof fn lemma_centered_origin_meets_center(work_area: Rect, window_rect: Rect)
    ensures
        ({
            let (x, y) = centered_origin(work_area, window_rect);
            &&& x + half(window_rect.right - window_rect.left) == work_area.left + half(
                work_area.right - work_area.left,
            )
            &&& y + half(window_rect.bottom - window_rect.top) == work_area.top + half(
                work_area.bottom - work_area.top,
            )
        }),
{
}

/// Moving the work area by `(dx, dy)` moves the centered corner by the same
/// amount, and where the window stands now does not matter, only its size.
pub proof fn lemma_centered_origin_follows_work_area(
    work_area: Rect,
    moved_area: Rect,
    window_rect: Rect,
    other_window: Rect,
    dx: int,
    dy: int,
)
    requires
        moved_area.left == work_area.left + dx,
        moved_area.right == work_area.right + dx,
        moved_area.top == work_area.top + dy,
        moved_area.bottom == work_area.bottom + dy,
        other_window.right - other_window.left == window_rect.right - window_rect.left,
        other_window.bottom - other_window.top == window_rect.bottom - window_rect.top,
    ensures
        centered_origin(moved_area, other_window).0 == centered_origin(work_area, window_rect).0
            + dx,
        centered_origin(moved_area, other_window).1 == centered_origin(work_area, window_rect).1
            + dy,
{
}

/// `get_client_size` gives the width and the height themselves when they
/// are not negative; in any case the `u32` it gives is the one congruent to
/// the difference modulo 2^32.
pub proof fn lemma_client_size_is_extent(v: int)
    requires
        fits_i32(v),
    ensures
        0 <= wrap_u32(v) < 0x1_0000_0000,
        (wrap_u32(v) - v) % 0x1_0000_0000 == 0,
        v >= 0 ==> wrap_u32(v) == v,
{
}

/// The placement of `resize_client`, in terms of the rectangles' edges: the
/// window changes size by the change of the client area, and its center
/// (left edge plus half the width, top edge plus half the height) stays.
pub proof fn lemma_resize_in_edges(window_rect: Rect, client_rect: Rect, width: int, height: int)
    ensures
        ({
            let (x, y, cx, cy) = resized_placement(window_rect, client_rect, width, height);
            &&& cx == (window_rect.right - window_rect.left) + width - (client_rect.right
                - client_rect.left)
            &&& cy == (window_rect.bottom - window_rect.top) + height - (client_rect.bottom
                - client_rect.top)
            &&& x + half(cx) == window_rect.left + half(window_rect.right - window_rect.left)
            &&& y + half(cy) == window_rect.top + half(window_rect.bottom - window_rect.top)
        }),
{
}

/// The conditions under which the computations do not overflow, in terms of
/// the edges: every difference and every result lies in
/// `-2^31 ..= 2^31 - 1`.
pub proof fn lemma_overflow_conditions(
    work_area: Rect,
    window_rect: Rect,
    client_rect: Rect,
    width: int,
    height: int,
)
    ensures
        window_rect.measurable() <==> (-0x8000_0000 <= window_rect.right - window_rect.left
            < 0x8000_0000 && -0x8000_0000 <= window_rect.bottom - window_rect.top < 0x8000_0000),
        centering_fits(work_area, window_rect) <==> (work_area.measurable()
            && window_rect.measurable() && -0x8000_0000 <= centered_origin(work_area, window_rect).0
            < 0x8000_0000 && -0x8000_0000 <= centered_origin(work_area, window_rect).1
            < 0x8000_0000),
        resizing_fits(window_rect, client_rect, width, height) <==> ({
            let (x, y, cx, cy) = resized_placement(window_rect, client_rect, width, height);
            &&& window_rect.measurable()
            &&& client_rect.measurable()
            &&& -0x8000_0000 <= (window_rect.right - window_rect.left) + width < 0x8000_0000
            &&& -0x8000_0000 <= (window_rect.bottom - window_rect.top) + height < 0x8000_0000
            &&& -0x8000_0000 <= cx < 0x8000_0000
            &&& -0x8000_0000 <= cy < 0x8000_0000
            &&& -0x8000_0000 <= x < 0x8000_0000
            &&& -0x8000_0000 <= y < 0x8000_0000
        }),
{
}

/// The center of a measurable rectangle lies between its edges, in
/// whichever order the edges stand.
pub proof fn lemma_center_within(rect: Rect)
    requires
        rect.measurable(),
    ensures
        rect.left <= rect.right ==> rect.left <= rect.center_x() <= rect.right,
        rect.right < rect.left ==> rect.right <= rect.center_x() <= rect.left,
        rect.top <= rect.bottom ==> rect.top <= rect.center_y() <= rect.bottom,
        rect.bottom < rect.top ==> rect.bottom <= rect.center_y() <= rect.top,
{
    lemma_half_bounds(rect.width());
    lemma_half_bounds(rect.height());
}

/// A window moved, at its size, to the corner that `center_to_screen`
/// computes stands centered on the work area: its rectangle and the work
/// area have the same center.
pub proof fn lemma_centering_centers(work_area: Rect, window_rect: Rect, moved: Rect)
    requires
        centering_fits(work_area, window_rect),
        (moved.left as int, moved.top as int) == centered_origin(work_area, window_rect),
        moved.width() == window_rect.width(),
        moved.height() == window_rect.height(),
    ensures
        same_center(work_area, moved),
{
}

/// Centering is idempotent: a window that already stands in the middle of
/// the work area is not moved by `center_to_screen`.
pub proof fn lemma_centered_window_stays(work_area: Rect, window_rect: Rect)
    requires
        centering_fits(work_area, window_rect),
        same_center(work_area, window_rect),
    ensures
        centered_origin(work_area, window_rect) == (window_rect.left as int, window_rect.top as int),
{
}

/// The placement of `resize_client` keeps the window's frame, so the client
/// area comes out at the requested size, and keeps the window's center.
pub proof fn lemma_resize_keeps_frame_and_center(
    window_rect: Rect,
    client_rect: Rect,
    width: int,
    height: int,
)
    requires
        resizing_fits(window_rect, client_rect, width, height),
    ensures
        ({
            let (x, y, cx, cy) = resized_placement(window_rect, client_rect, width, height);
            &&& cx - width == window_rect.width() - client_rect.width()
            &&& cy - height == window_rect.height() - client_rect.height()
            &&& mid(x, x + cx) == window_rect.center_x()
            &&& mid(y, y + cy) == window_rect.center_y()
        }),
{
}

} // verus!
