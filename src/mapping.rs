//! The distance and angle maps over the mapping space.
use vstd::prelude::*;

verus! {

/// How quickly the rings repeat outward from the center.
pub const RATIO: u64 = 32;

/// The distance value of the exact center, before folding: the scaled
/// inverse distance there is unbounded, so it saturates.
pub const CENTER_DISTANCE: u64 = 0xFFFF_FFFF_FFFF_FFFF;

/// Texture heights above this bound would overflow the scaled radius.
pub const MAX_TEX_HEIGHT: u64 = 0x00FF_FFFF_FFFF_FFFF;

/// Twice the offset of coordinate `p` from the middle of a span of `size`
/// (doubled so that odd spans keep an integer center).
pub open spec fn doubled_offset(p: int, size: int) -> int {
    2 * p - size
}

/// The scaled radius `2 * RATIO * texheight` that the doubled offsets are
/// measured against.
pub open spec fn ring_scale(texheight: int) -> int {
    2 * (RATIO as int) * texheight
}

/// `q` is `floor(n / sqrt(d2))`.
pub open spec fn is_ring_index(q: int, n: int, d2: int) -> bool {
    &&& 0 <= q
    &&& q * q * d2 <= n * n
    &&& n * n < (q + 1) * (q + 1) * d2
}

/// `floor(n / sqrt(d2))` for `d2 > 0`.
pub open spec fn ring_index(n: int, d2: int) -> int {
    choose|q: int| is_ring_index(q, n, d2)
}

/// The unfolded distance value for doubled offsets `(dx, dy)`:
/// `floor(RATIO * texheight / sqrt(cx * cx + cy * cy))` with
/// `(cx, cy) = (dx / 2, dy / 2)`, saturated at the center.
pub open spec fn raw_distance(dx: int, dy: int, texheight: int) -> int {
    if dx == 0 && dy == 0 {
        CENTER_DISTANCE as int
    } else {
        ring_index(ring_scale(texheight), dx * dx + dy * dy)
    }
}

/// The distance map's value at cell `(x, y)` of a `width` by `height` space.
pub open spec fn distance_value(width: int, height: int, texheight: int, x: int, y: int) -> int {
    raw_distance(doubled_offset(x, width), doubled_offset(y, height), texheight) % texheight
}

/// The whole distance map of a `width` by `height` space, row by row.
pub open spec fn distance_map(width: nat, height: nat, texheight: nat) -> Seq<usize> {
    Seq::new(
        width * height,
        |i: int| distance_value(width as int, height as int, texheight as int, i % width as int, i / width as int) as usize,
    )
}

/// Cell `i` of the angle map holds `raw % texwidth` for some `raw` that
/// `angle_of` may return for that cell's coordinates.
pub open spec fn is_angle_cell<F: Fn(usize, usize) -> usize>(
    angle_of: F,
    width: nat,
    texwidth: nat,
    i: int,
    v: usize,
) -> bool {
    exists|raw: usize|
        #[trigger] angle_of.ensures(((i % width as int) as usize, (i / width as int) as usize), raw)
            && v == raw % texwidth as usize
}

/// There is one `floor(n / sqrt(d2))`.
pub proof fn lemma_ring_index_unique(q1: int, q2: int, n: int, d2: int)
    requires
        is_ring_index(q1, n, d2),
        is_ring_index(q2, n, d2),
        0 < d2,
    ensures
        q1 == q2,
{
    if q1 < q2 {
        assert((q1 + 1) * (q1 + 1) * d2 <= q2 * q2 * d2) by (nonlinear_arith)
            requires q1 + 1 <= q2, 0 <= q1, 0 <= d2;
    } else if q2 < q1 {
        assert((q2 + 1) * (q2 + 1) * d2 <= q1 * q1 * d2) by (nonlinear_arith)
            requires q2 + 1 <= q1, 0 <= q2, 0 <= d2;
    }
}

/// A witness of `is_ring_index` is `ring_index`.
pub proof fn lemma_ring_index_is(q: int, n: int, d2: int)
    requires
        is_ring_index(q, n, d2),
        0 < d2,
    ensures
        ring_index(n, d2) == q,
{
    let c = ring_index(n, d2);
    assert(is_ring_index(c, n, d2));
    lemma_ring_index_unique(c, q, n, d2);
}

/// `floor(n / sqrt(d2))`, by a binary search for the integer square root
/// of `n * n / d2`.
fn ring_index_of(n: u128, d2: u128) -> (q: u128)
    requires
        n < 0x4000_0000_0000_0000,
        0 < d2,
    ensures
        is_ring_index(q as int, n as int, d2 as int),
        q <= n,
{
    assert(n * n < 0x1000_0000_0000_0000_0000_0000_0000_0000) by (nonlinear_arith)
        requires n < 0x4000_0000_0000_0000;
    let nn: u128 = n * n;
    let m: u128 = nn / d2;
    assert(m <= nn) by (nonlinear_arith)
        requires m == nn / d2, 0 < d2;
    let mut lo: u128 = 0;
    let mut hi: u128 = n + 1;
    assert(m < hi * hi) by (nonlinear_arith)
        requires m <= n * n, hi == n + 1;
    assert((n + 1) * (n + 1) <= 0x4000_0000_0000_0000 * 0x4000_0000_0000_0000) by (nonlinear_arith)
        requires n + 1 <= 0x4000_0000_0000_0000;
    while hi - lo > 1
        invariant
            n < 0x4000_0000_0000_0000,
            (n + 1) * (n + 1) <= 0x4000_0000_0000_0000 * 0x4000_0000_0000_0000,
            lo < hi <= n + 1,
            lo * lo <= m,
            m < hi * hi,
        decreases hi - lo,
    {
        let mid: u128 = lo + (hi - lo) / 2;
        assert(mid * mid <= hi * hi && hi * hi <= (n + 1) * (n + 1)) by (nonlinear_arith)
            requires lo <= mid < hi <= n + 1;
        if mid * mid <= m {
            lo = mid;
        } else {
            hi = mid;
        }
    }
    let ghost q = lo as int;
    assert(hi == lo + 1);
    proof {
        let ni = n as int;
        let di = d2 as int;
        let mi = m as int;
        assert(ni * ni == di * mi + (ni * ni) % di && 0 <= (ni * ni) % di < di) by {
            vstd::arithmetic::div_mod::lemma_fundamental_div_mod(ni * ni, di);
            vstd::arithmetic::div_mod::lemma_mod_bound(ni * ni, di);
        }
        assert(q * q * di <= ni * ni) by (nonlinear_arith)
            requires q * q <= mi, ni * ni == di * mi + (ni * ni) % di, 0 <= (ni * ni) % di, 0 < di;
        assert(ni * ni < (q + 1) * (q + 1) * di) by (nonlinear_arith)
            requires mi < (q + 1) * (q + 1), ni * ni == di * mi + (ni * ni) % di, (ni * ni) % di < di, 0 < di;
    }
    lo
}

/// The unfolded distance value of cell `(x, y)` of a `width` by `height`
/// mapping space, for a texture `texheight` high:
/// `floor(RATIO * texheight / r)` where `r` is the cell's distance from the
/// space's center; `CENTER_DISTANCE` at the center itself.
pub fn ring_distance(x: usize, y: usize, width: usize, height: usize, texheight: usize) -> (r: u64)
    requires
        texheight <= MAX_TEX_HEIGHT,
    ensures
        r == raw_distance(doubled_offset(x as int, width as int), doubled_offset(y as int, height as int), texheight as int),
{
    let ghost dx: int = doubled_offset(x as int, width as int);
    let ghost dy: int = doubled_offset(y as int, height as int);
    assert(RATIO == 32 && texheight <= 0x00FF_FFFF_FFFF_FFFF);
    let n: u128 = 64 * (texheight as u128);
    assert(n == ring_scale(texheight as int));
    let sx: i128 = 2 * (x as i128) - (width as i128);
    let sy: i128 = 2 * (y as i128) - (height as i128);
    if sx == 0 && sy == 0 {
        return CENTER_DISTANCE;
    }
    let ax: u128 = if sx < 0 { (-sx) as u128 } else { sx as u128 };
    let ay: u128 = if sy < 0 { (-sy) as u128 } else { sy as u128 };
    assert(ax * ax == dx * dx && ay * ay == dy * dy) by (nonlinear_arith)
        requires ax == dx || ax == -dx, ay == dy || ay == -dy;
    if ax > n || ay > n {
        proof {
            let ni = n as int;
            assert(ni * ni < dx * dx + dy * dy && 0 * 0 * (dx * dx + dy * dy) <= ni * ni
                && ni * ni < (0 + 1) * (0 + 1) * (dx * dx + dy * dy)) by (nonlinear_arith)
                requires ax > ni || ay > ni, 0 <= ni, ax * ax == dx * dx, ay * ay == dy * dy, ax >= 0, ay >= 0;
            assert(is_ring_index(0, ni, dx * dx + dy * dy));
            lemma_ring_index_is(0, ni, dx * dx + dy * dy);
        }
        return 0;
    }
    assert(ax * ax + ay * ay <= 2 * n * n && 0 < ax * ax + ay * ay) by (nonlinear_arith)
        requires ax <= n, ay <= n, ax > 0 || ay > 0;
    assert(2 * n * n < 0x8000_0000_0000_0000_0000_0000_0000_0000) by (nonlinear_arith)
        requires n < 0x4000_0000_0000_0000;
    let d2: u128 = ax * ax + ay * ay;
    let q: u128 = ring_index_of(n, d2);
    proof {
        lemma_ring_index_is(q as int, n as int, d2 as int);
    }
    assert(q < 0x4000_0000_0000_0000);
    q as u64
}

/// Builds the distance map and the angle map of a `width` by `height`
/// mapping space for a `texwidth` by `texheight` texture, row by row.
///
/// The distance map holds `ring_distance` of each cell folded into
/// `[0, texheight)`. `angle_of(x, y)` gives the unfolded angle value of cell
/// `(x, y)` (with floating point, out of this crate); the angle map holds it
/// folded into `[0, texwidth)`.
pub fn calculate_mapping<F: Fn(usize, usize) -> usize>(
    width: usize,
    height: usize,
    texwidth: usize,
    texheight: usize,
    angle_of: F,
) -> (maps: (Vec<usize>, Vec<usize>))
    requires
        width * height <= usize::MAX,
        0 < texwidth,
        0 < texheight <= MAX_TEX_HEIGHT,
        forall|x: usize, y: usize| x < width && y < height ==> #[trigger] angle_of.requires((x, y)),
    ensures
        maps.0@ == distance_map(width as nat, height as nat, texheight as nat),
        maps.1@.len() == width * height,
        forall|i: int| 0 <= i < width * height ==> is_angle_cell(angle_of, width as nat, texwidth as nat, i, #[trigger] maps.1@[i]),
        forall|i: int| 0 <= i < width * height ==> #[trigger] maps.0@[i] < texheight,
        forall|i: int| 0 <= i < width * height ==> #[trigger] maps.1@[i] < texwidth,
{
    let ghost w = width as int;
    let ghost want = distance_map(width as nat, height as nat, texheight as nat);
    let mut distmap: Vec<usize> = Vec::new();
    let mut anglemap: Vec<usize> = Vec::new();
    let mut y: usize = 0;
    while y < height
        invariant
            w == width,
            y <= height,
            width * height <= usize::MAX,
            0 < texwidth,
            0 < texheight <= MAX_TEX_HEIGHT,
            forall|x: usize, y: usize| x < width && y < height ==> #[trigger] angle_of.requires((x, y)),
            want == distance_map(width as nat, height as nat, texheight as nat),
            distmap@.len() == y * w,
            anglemap@.len() == y * w,
            forall|i: int| 0 <= i < y * w ==> #[trigger] distmap@[i] == want[i],
            forall|i: int| 0 <= i < y * w ==> is_angle_cell(angle_of, width as nat, texwidth as nat, i, #[trigger] anglemap@[i]),
            forall|i: int| 0 <= i < y * w ==> #[trigger] anglemap@[i] < texwidth,
        decreases height - y,
    {
        let mut x: usize = 0;
        while x < width
            invariant
                w == width,
                y < height,
                x <= width,
                width * height <= usize::MAX,
                0 < texwidth,
                0 < texheight <= MAX_TEX_HEIGHT,
                forall|x: usize, y: usize| x < width && y < height ==> #[trigger] angle_of.requires((x, y)),
                want == distance_map(width as nat, height as nat, texheight as nat),
                distmap@.len() == y * w + x,
                anglemap@.len() == y * w + x,
                forall|i: int| 0 <= i < y * w + x ==> #[trigger] distmap@[i] == want[i],
                forall|i: int| 0 <= i < y * w + x ==> is_angle_cell(angle_of, width as nat, texwidth as nat, i, #[trigger] anglemap@[i]),
                forall|i: int| 0 <= i < y * w + x ==> #[trigger] anglemap@[i] < texwidth,
            decreases width - x,
        {
            let ghost i: int = y * w + x;
            proof {
                assert(i < width * height && i % w == x as int && i / w == y as int) by (nonlinear_arith)
                    requires i == y * w + x, 0 <= x < w, y < height, w == width;
            }
            let raw: u64 = ring_distance(x, y, width, height, texheight);
            let dist: usize = (raw % (texheight as u64)) as usize;
            distmap.push(dist);
            let a: usize = angle_of(x, y);
            let angle: usize = a % texwidth;
            anglemap.push(angle);
            proof {
                assert(distmap@[i] == want[i]);
                assert(((i % w) as usize, (i / w) as usize) == (x, y));
                assert(angle_of.ensures(((i % w) as usize, (i / w) as usize), a));
                assert(is_angle_cell(angle_of, width as nat, texwidth as nat, i, anglemap@[i]));
            }
            x = x + 1;
        }
        assert((y + 1) * w == y * w + w) by (nonlinear_arith);
        y = y + 1;
    }
    assert(y * w == width * height) by (nonlinear_arith)
        requires y == height, w == width;
    assert(distmap@ =~= want);
    (distmap, anglemap)
}

/// The distance map is point-symmetric about the center of the mapping
/// space: cell `(x, y)` and its mirror `(width - x, height - y)` hold the
/// same value.
pub proof fn lemma_distance_point_symmetric(width: nat, height: nat, texheight: nat, x: int, y: int)
    requires
        0 < x < width,
        0 < y < height,
    ensures
        doubled_offset(width - x, width as int) == -doubled_offset(x, width as int),
        doubled_offset(height - y, height as int) == -doubled_offset(y, height as int),
        distance_map(width, height, texheight)[y * width + x] == distance_map(width, height, texheight)[(height - y) * width + (width - x)],
{
    let w = width as int;
    let h = height as int;
    let i = y * w + x;
    let j = (h - y) * w + (w - x);
    assert(i < w * h && i % w == x && i / w == y) by (nonlinear_arith)
        requires i == y * w + x, 0 <= x < w, 0 <= y < h;
    assert(j < w * h && j % w == w - x && j / w == h - y) by (nonlinear_arith)
        requires j == (h - y) * w + (w - x), 0 < x < w, 0 < y < h;
    let dx = doubled_offset(x, w);
    let dy = doubled_offset(y, h);
    assert((-dx) * (-dx) == dx * dx && (-dy) * (-dy) == dy * dy) by (nonlinear_arith);
    assert(raw_distance(-dx, -dy, texheight as int) == raw_distance(dx, dy, texheight as int));
}

} // verus!
