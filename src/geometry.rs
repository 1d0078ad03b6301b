//! Rectangles in global desktop coordinates and the rule that places a
//! rectangle on a display.
use vstd::prelude::*;

verus! {

/// A rectangle in global desktop coordinates, by its top-left corner and size.
#[derive(Clone, Copy, Debug, PartialEq, Eq)]
pub struct Rect {
    pub x: i32,
    pub y: i32,
    pub width: u32,
    pub height: u32,
}

/// A display by its identifier and its bounds.
#[derive(Clone, Copy, Debug, PartialEq, Eq)]
pub struct DisplayRecord {
    pub id: u32,
    pub bounds: Rect,
}

/// `a <= p < a + len` with `p` given doubled, so that half-way points stay exact.
pub open spec fn within_doubled(a: i32, len: u32, twice_p: int) -> bool {
    2 * a <= twice_p < 2 * (a + len)
}

/// The display bounds `d` contain the centre of `r`.
pub open spec fn contains_center(d: Rect, r: Rect) -> bool {
    within_doubled(d.x, d.width, 2 * r.x + r.width) && within_doubled(d.y, d.height, 2 * r.y
        + r.height)
}

/// `a` and `b` share an area of positive size.
pub open spec fn intersects(a: Rect, b: Rect) -> bool {
    &&& a.x < b.x + b.width
    &&& b.x < a.x + a.width
    &&& a.y < b.y + b.height
    &&& b.y < a.y + a.height
}

/// `r` is placed on display bounds `d`: they hold its centre or overlap it.
pub open spec fn on_display(d: Rect, r: Rect) -> bool {
    contains_center(d, r) || intersects(d, r)
}

/// Index of the first display from `i` on that `r` is placed on.
pub open spec fn first_display_for(displays: Seq<DisplayRecord>, r: Rect, i: int) -> Option<int>
    decreases displays.len() - i,
{
    if i < 0 || i >= displays.len() {
        None
    } else if on_display(displays[i].bounds, r) {
        Some(i)
    } else {
        first_display_for(displays, r, i + 1)
    }
}

/// The display that `r` is placed on: the first listed one that holds its
/// centre or overlaps it, else the main display.
pub open spec fn display_for(displays: Seq<DisplayRecord>, main: DisplayRecord, r: Rect) -> DisplayRecord {
    match first_display_for(displays, r, 0) {
        Some(i) => displays[i],
        None => main,
    }
}

fn within_doubled_exec(a: i32, len: u32, twice_p: i64) -> (b: bool)
    ensures
        b == within_doubled(a, len, twice_p as int),
{
    2 * (a as i64) <= twice_p && twice_p < 2 * (a as i64 + len as i64)
}

/// Whether `r` is placed on display bounds `d`.
pub fn is_on_display(d: &Rect, r: &Rect) -> (b: bool)
    ensures
        b == on_display(*d, *r),
{
    let cx2 = 2 * (r.x as i64) + r.width as i64;
    let cy2 = 2 * (r.y as i64) + r.height as i64;
    let center = within_doubled_exec(d.x, d.width, cx2) && within_doubled_exec(d.y, d.height, cy2);
    let overlap = (d.x as i64) < r.x as i64 + r.width as i64 && (r.x as i64) < d.x as i64
        + d.width as i64 && (d.y as i64) < r.y as i64 + r.height as i64 && (r.y as i64) < d.y as i64
        + d.height as i64;
    center || overlap
}

/// The display that `rect` is placed on; the main display when no listed one is.
pub fn display_for_rect(displays: &[DisplayRecord], main: &DisplayRecord, rect: &Rect) -> (r:
    DisplayRecord)
    ensures
        r == display_for(displays@, *main, *rect),
{
    let mut i: usize = 0;
    while i < displays.len()
        invariant
            i <= displays@.len(),
            first_display_for(displays@, *rect, 0) == first_display_for(displays@, *rect, i as int),
        decreases displays@.len() - i,
    {
        if is_on_display(&displays[i].bounds, rect) {
            return displays[i];
        }
        i = i + 1;
    }
    *main
}

} // verus!
