use vstd::prelude::*;

verus! {

/// A snapshot of one display: its identifier, its position in the global
/// desktop space and its size in pixels.
#[derive(Debug, Clone, Copy, PartialEq, Eq, Structural)]
pub struct DisplayInfo {
    pub id: u32,
    pub x: i32,
    pub y: i32,
    pub width: u32,
    pub height: u32,
    pub is_primary: bool,
}

/// A rectangle in a display's local coordinates, as handed to a backend.
#[derive(Debug, Clone, Copy, PartialEq, Eq, Structural)]
pub struct Area {
    pub x: u32,
    pub y: u32,
    pub width: u32,
    pub height: u32,
}

impl Area {
    /// The rectangle as `(x, y, width, height)` in mathematical integers.
    pub open spec fn rect(self) -> (int, int, int, int) {
        (self.x as int, self.y as int, self.width as int, self.height as int)
    }

    /// Non-empty and wholly inside the display `d`.
    pub open spec fn fits(self, d: DisplayInfo) -> bool {
        0 < self.width && self.x + self.width <= d.width
            && 0 < self.height && self.y + self.height <= d.height
    }
}

/// A start coordinate clamped to `[lo, hi]`: below `lo` snaps to `lo`, above
/// `hi` (strictly) snaps to `hi`.
pub open spec fn clamp_start(v: int, lo: int, hi: int) -> int {
    if v < lo {
        lo
    } else if v > hi {
        hi
    } else {
        v
    }
}

/// An end coordinate clamped from above only.
pub open spec fn clamp_end(v: int, hi: int) -> int {
    if v > hi {
        hi
    } else {
        v
    }
}

/// The local rectangle that a request `(x, y, width, height)` in `d`'s local
/// coordinates becomes once its edges are clamped to `d`'s global bounds, or
/// `None` where the clamped rectangle is empty or inverted.
pub open spec fn clamped_rect(d: DisplayInfo, x: int, y: int, width: int, height: int) -> Option<
    (int, int, int, int),
> {
    let left = d.x as int;
    let top = d.y as int;
    let right = d.x + d.width;
    let bottom = d.y + d.height;
    let x1 = clamp_start(x + left, left, right);
    let y1 = clamp_start(y + top, top, bottom);
    let x2 = clamp_end(x + left + width, right);
    let y2 = clamp_end(y + top + height, bottom);
    if x1 >= x2 || y1 >= y2 {
        None
    } else {
        Some((x1 - left, y1 - top, x2 - x1, y2 - y1))
    }
}

impl DisplayInfo {
    /// Clamps a rectangle given in this display's local coordinates to the
    /// display's bounds; `None` where nothing of it is left.
    pub fn clamp_area(&self, x: i32, y: i32, width: u32, height: u32) -> (r: Option<Area>)
        ensures
            match r {
                Some(a) => clamped_rect(*self, x as int, y as int, width as int, height as int)
                    == Some(a.rect()) && a.fits(*self),
                None => clamped_rect(*self, x as int, y as int, width as int, height as int)
                    is None,
            },
    {
        let left = self.x as i64;
        let top = self.y as i64;
        let right = left + self.width as i64;
        let bottom = top + self.height as i64;

        let mut x1 = x as i64 + left;
        let mut y1 = y as i64 + top;
        let mut x2 = x1 + width as i64;
        let mut y2 = y1 + height as i64;

        if x1 < left {
            x1 = left;
        } else if x1 > right {
            x1 = right;
        }
        if y1 < top {
            y1 = top;
        } else if y1 > bottom {
            y1 = bottom;
        }
        if x2 > right {
            x2 = right;
        }
        if y2 > bottom {
            y2 = bottom;
        }

        if x1 >= x2 || y1 >= y2 {
            return None;
        }
        Some(
            Area {
                x: (x1 - left) as u32,
                y: (y1 - top) as u32,
                width: (x2 - x1) as u32,
                height: (y2 - y1) as u32,
            },
        )
    }
}

/// The clamped rectangle is the intersection of the request with the display:
/// it runs from `max(x, 0)` to `min(x + width, d.width)` across and from
/// `max(y, 0)` to `min(y + height, d.height)` down, and the request is refused
/// exactly when either span is empty.
pub proof fn lemma_clamped_is_intersection(d: DisplayInfo, x: int, y: int, width: int, height: int)
    ensures
        ({
            let x0 = if x > 0 { x } else { 0 };
            let y0 = if y > 0 { y } else { 0 };
            let x3 = if x + width < d.width { x + width } else { d.width as int };
            let y3 = if y + height < d.height { y + height } else { d.height as int };
            &&& clamped_rect(d, x, y, width, height) is None <==> (x0 >= x3 || y0 >= y3)
            &&& !(x0 >= x3 || y0 >= y3) ==> clamped_rect(d, x, y, width, height) == Some(
                (x0, y0, x3 - x0, y3 - y0),
            )
        }),
{
}

/// A non-empty rectangle that lies wholly inside the display is kept exactly
/// as requested.
pub proof fn lemma_inside_unchanged(d: DisplayInfo, x: int, y: int, width: int, height: int)
    requires
        0 <= x,
        0 <= y,
        0 < width,
        0 < height,
        x + width <= d.width,
        y + height <= d.height,
    ensures
        clamped_rect(d, x, y, width, height) == Some((x, y, width, height)),
{
}

/// A start left of the display snaps to local x 0 and the width shrinks to
/// what is left of the request inside the display; likewise above the display
/// for y and the height.
pub proof fn lemma_start_snaps_to_origin(d: DisplayInfo, x: int, y: int, width: int, height: int)
    requires
        0 <= width,
        0 <= height,
    ensures
        x < 0 ==> match clamped_rect(d, x, y, width, height) {
            Some(r) => r.0 == 0 && r.2 == clamp_end(x + width, d.width as int),
            None => true,
        },
        y < 0 ==> match clamped_rect(d, x, y, width, height) {
            Some(r) => r.1 == 0 && r.3 == clamp_end(y + height, d.height as int),
            None => true,
        },
        x < 0 && x + width <= 0 ==> clamped_rect(d, x, y, width, height) is None,
        y < 0 && y + height <= 0 ==> clamped_rect(d, x, y, width, height) is None,
{
}

/// An end beyond the display's right (bottom) edge snaps to that edge: the
/// clamped rectangle ends at the display's width (height).
pub proof fn lemma_end_snaps_to_edge(d: DisplayInfo, x: int, y: int, width: int, height: int)
    ensures
        x + width > d.width ==> match clamped_rect(d, x, y, width, height) {
            Some(r) => r.0 + r.2 == d.width,
            None => true,
        },
        y + height > d.height ==> match clamped_rect(d, x, y, width, height) {
            Some(r) => r.1 + r.3 == d.height,
            None => true,
        },
{
}

/// A rectangle that lies wholly outside the display leaves nothing to capture.
pub proof fn lemma_outside_rejected(d: DisplayInfo, x: int, y: int, width: int, height: int)
    requires
        0 <= width,
        0 <= height,
        x >= d.width || y >= d.height || x + width <= 0 || y + height <= 0,
    ensures
        clamped_rect(d, x, y, width, height) is None,
{
}

/// A rectangle of zero width or zero height leaves nothing to capture.
pub proof fn lemma_empty_rejected(d: DisplayInfo, x: int, y: int, width: int, height: int)
    requires
        width == 0 || height == 0,
    ensures
        clamped_rect(d, x, y, width, height) is None,
{
}

} // verus!
