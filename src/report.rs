//! What the console shows: a summary of each map, and the values under the
//! mouse whenever it moves.
use crate::image::{image_height, image_height_of, image_pixels, image_width, image_width_of, pixel_at, Rgb};
use pixel_canvas::Image;
use vstd::prelude::*;

verus! {

/// The smallest and largest value of a map and its top-left corner.
#[derive(Debug)]
pub struct MapSummary {
    /// The smallest value; `usize::MAX` for an empty map.
    pub min: usize,
    /// The largest value; 0 for an empty map.
    pub max: usize,
    /// The top-left `samples` by `samples` values (clipped to the map), row by row.
    pub corner: Vec<Vec<usize>>,
}

/// The values under the mouse.
#[derive(Clone, Copy, Debug, PartialEq, Eq)]
pub struct MouseReport {
    /// The texel at the mouse position, wrapped into the texture.
    pub texel: Rgb,
    /// The angle map's raw value there.
    pub angle: usize,
    /// The distance map's raw value there.
    pub distance: usize,
}

/// What the compositor keeps from one frame to the next.
#[derive(Clone, Copy, Debug, PartialEq, Eq)]
pub struct FrameState {
    /// The mouse position last reported.
    pub last_mouse: (usize, usize),
}

/// A raw mouse coordinate halved into buffer space; negative ones clamp to 0.
pub open spec fn half_clamped(v: int) -> int {
    if v < 0 {
        0
    } else {
        v / 2
    }
}

/// The smaller of two values.
pub open spec fn at_most(a: int, b: int) -> int {
    if a < b {
        a
    } else {
        b
    }
}

/// Summarises the first `width * height` values of `map`, a map `width`
/// wide: its minimum, its maximum, and its top-left `samples` by `samples`
/// corner.
pub fn sample_map(map: &Vec<usize>, samples: usize, width: usize, height: usize) -> (s: MapSummary)
    requires
        width * height <= map@.len(),
    ensures
        forall|i: int| 0 <= i < width * height ==> s.min <= #[trigger] map@[i] <= s.max,
        width * height == 0 ==> s.min == usize::MAX && s.max == 0,
        width * height > 0 ==> exists|i: int| 0 <= i < width * height && map@[i] == s.min,
        width * height > 0 ==> exists|i: int| 0 <= i < width * height && map@[i] == s.max,
        s.corner@.len() == at_most(samples as int, height as int),
        forall|y: int| 0 <= y < s.corner@.len() ==> (#[trigger] s.corner@[y])@.len() == at_most(samples as int, width as int),
        forall|y: int, x: int|
            0 <= y < s.corner@.len() && 0 <= x < at_most(samples as int, width as int)
                ==> #[trigger] s.corner@[y]@[x] == map@[y * width + x],
{
    let len: usize = map.len();
    let n: usize = width * height;
    let mut min: usize = usize::MAX;
    let mut max: usize = 0;
    let mut i: usize = 0;
    while i < n
        invariant
            n == width * height,
            n <= map@.len(),
            i <= n,
            forall|j: int| 0 <= j < i ==> min <= #[trigger] map@[j] <= max,
            i == 0 ==> min == usize::MAX && max == 0,
            i > 0 ==> exists|j: int| 0 <= j < i && map@[j] == min,
            i > 0 ==> exists|j: int| 0 <= j < i && map@[j] == max,
        decreases n - i,
    {
        let v = map[i];
        if v < min {
            min = v;
        }
        if v > max {
            max = v;
        }
        i = i + 1;
    }
    let rows: usize = if samples < height { samples } else { height };
    let cols: usize = if samples < width { samples } else { width };
    let mut corner: Vec<Vec<usize>> = Vec::new();
    let mut y: usize = 0;
    while y < rows
        invariant
            rows <= height,
            cols <= width,
            cols == at_most(samples as int, width as int),
            width * height <= map@.len(),
            map@.len() == len,
            y <= rows,
            corner@.len() == y,
            forall|r: int| 0 <= r < y ==> (#[trigger] corner@[r])@.len() == cols,
            forall|r: int, x: int| 0 <= r < y && 0 <= x < cols ==> #[trigger] corner@[r]@[x] == map@[r * width + x],
        decreases rows - y,
    {
        let mut row: Vec<usize> = Vec::new();
        let mut x: usize = 0;
        while x < cols
            invariant
                rows <= height,
                cols <= width,
                width * height <= map@.len(),
                map@.len() == len,
                y < rows,
                x <= cols,
                row@.len() == x,
                forall|c: int| 0 <= c < x ==> #[trigger] row@[c] == map@[y * width + c],
            decreases cols - x,
        {
            assert(y * width + x < width * height && y * width <= y * width + x) by (nonlinear_arith)
                requires y < height, x < width;
            row.push(map[y * width + x]);
            x = x + 1;
        }
        corner.push(row);
        y = y + 1;
    }
    MapSummary { min, max, corner }
}

/// Turns a raw mouse position into buffer coordinates:
/// `(x / 2, (y + height) / 2)`, each clamped at 0.
pub fn mousenorm(x: i32, y: i32, height: usize) -> (pos: (usize, usize))
    ensures
        pos.0 == half_clamped(x as int),
        pos.1 == half_clamped(y + height),
{
    let px: usize = if x < 0 { 0 } else { (x / 2) as usize };
    let t: i128 = (y as i128) + (height as i128);
    let py: usize = if t < 0 { 0 } else { (t / 2) as usize };
    (px, py)
}

/// The texel and the raw map values under the mouse at `pos`: the texel at
/// `pos` wrapped into the texture, and the map cells at `pos.1 * stride +
/// pos.0`. `None` where that cell lies outside either map, or the texture
/// is empty.
pub fn mouse_report(
    pos: (usize, usize),
    stride: usize,
    tex: &Image,
    distmap: &Vec<usize>,
    anglemap: &Vec<usize>,
) -> (r: Option<MouseReport>)
    ensures
        ({
            let o = pos.1 * stride + pos.0;
            let tw = image_width_of(*tex) as int;
            let th = image_height_of(*tex) as int;
            if o < distmap@.len() && o < anglemap@.len() && 0 < tw && 0 < th {
                r == Some(MouseReport {
                    texel: image_pixels(*tex)[(pos.1 as int % th) * tw + pos.0 as int % tw],
                    angle: anglemap@[o],
                    distance: distmap@[o],
                })
            } else {
                r is None
            }
        }),
{
    let texwidth = image_width(tex);
    let texheight = image_height(tex);
    assert(usize::MAX <= 0xFFFF_FFFF_FFFF_FFFF);
    assert((pos.1 as int) * (stride as int) <= 0xFFFF_FFFF_FFFF_FFFF * 0xFFFF_FFFF_FFFF_FFFF) by (nonlinear_arith)
        requires pos.1 <= 0xFFFF_FFFF_FFFF_FFFF, stride <= 0xFFFF_FFFF_FFFF_FFFF, 0 <= pos.1, 0 <= stride;
    let o: u128 = (pos.1 as u128) * (stride as u128) + (pos.0 as u128);
    if texwidth == 0 || texheight == 0 || o >= distmap.len() as u128 || o >= anglemap.len() as u128 {
        return None;
    }
    let texel = pixel_at(tex, pos.0 % texwidth, pos.1 % texheight);
    Some(MouseReport { texel, angle: anglemap[o as usize], distance: distmap[o as usize] })
}

impl FrameState {
    /// No mouse position reported yet: the last one counts as the origin.
    pub fn new() -> (s: FrameState)
        ensures
            s.last_mouse == (0usize, 0usize),
    {
        FrameState { last_mouse: (0, 0) }
    }

    /// Records the mouse at `pos`; true when it moved since the last call,
    /// which is when its values are to be reported.
    pub fn observe_mouse(&mut self, pos: (usize, usize)) -> (moved: bool)
        ensures
            moved == (pos != old(self).last_mouse),
            final(self).last_mouse == pos,
    {
        let moved = pos.0 != self.last_mouse.0 || pos.1 != self.last_mouse.1;
        self.last_mouse = pos;
        moved
    }
}

} // verus!
