//! The per-frame compositor: samples the texture through the scrolled maps.
use crate::image::{image_height, image_height_of, image_pixels, image_width, image_width_of, pixel_at, set_pixel, Rgb};
use crate::mode::Which;
use crate::texture::texture_pixels;
use pixel_canvas::Image;
use vstd::prelude::*;

verus! {

/// How many distance steps the rings move outward per tick.
pub const SPEED: usize = 10;

/// How many angle steps the picture turns per tick.
pub const SPIN: usize = 3;

/// What one frame depends on besides the texture and the maps.
#[derive(Clone, Copy, Debug, PartialEq, Eq, Structural)]
pub struct Frame {
    /// Animation ticks since the start.
    pub elapsed: usize,
    /// Column of the mapping space that the frame's left edge starts at.
    pub shift_x: usize,
    /// Row of the mapping space that the frame's top edge starts at.
    pub shift_y: usize,
}

/// `value` scaled from `[0, max]` into `[0, 255]`.
pub open spec fn grey_level(value: int, max: int) -> int {
    255 * value / max
}

/// The grey of `grey_level(value, max)`.
pub open spec fn grey_of(value: int, max: int) -> Rgb {
    (grey_level(value, max) as u8, grey_level(value, max) as u8, grey_level(value, max) as u8)
}

/// The map cell that output pixel `(x, y)` reads.
pub open spec fn map_offset(map_width: int, f: Frame, x: int, y: int) -> int {
    (y + f.shift_y) * map_width + (x + f.shift_x)
}

/// A map value moved on by `rate` per tick and folded into `[0, modulus)`.
pub open spec fn scrolled(value: int, rate: int, elapsed: int, modulus: int) -> int {
    (value + rate * elapsed) % modulus
}

/// Output pixel `(x, y)` in the modes that sample the maps.
pub open spec fn effect_pixel(
    which: Which,
    tex: Seq<Rgb>,
    texwidth: int,
    texheight: int,
    distmap: Seq<usize>,
    anglemap: Seq<usize>,
    map_width: int,
    f: Frame,
    x: int,
    y: int,
) -> Rgb {
    let o = map_offset(map_width, f, x, y);
    let angle = scrolled(anglemap[o] as int, SPIN as int, f.elapsed as int, texwidth);
    let dist = scrolled(distmap[o] as int, SPEED as int, f.elapsed as int, texheight);
    match which {
        Which::Distance => grey_of(dist, texheight),
        Which::Angle => grey_of(angle, texwidth),
        _ => tex[dist * texwidth + angle],
    }
}

/// The image after a frame, from the image `before` it: in `Texture` mode
/// the texture over the top-left corner and the rest kept; in the other
/// modes every pixel sampled anew.
pub open spec fn rendered(
    which: Which,
    before: Seq<Rgb>,
    width: int,
    height: int,
    tex: Seq<Rgb>,
    texwidth: int,
    texheight: int,
    distmap: Seq<usize>,
    anglemap: Seq<usize>,
    map_width: int,
    f: Frame,
) -> Seq<Rgb> {
    if which == Which::Texture {
        Seq::new(
            before.len(),
            |i: int|
                if i % width < texwidth && i / width < texheight {
                    tex[(i / width) * texwidth + i % width]
                } else {
                    before[i]
                },
        )
    } else {
        Seq::new(
            (width * height) as nat,
            |i: int| effect_pixel(which, tex, texwidth, texheight, distmap, anglemap, map_width, f, i % width, i / width),
        )
    }
}

/// A grey whose level is `value` scaled from `[0, max]` into `[0, 255]`.
pub fn grey(value: usize, max: usize) -> (r: Rgb)
    requires
        value <= max,
        0 < max,
    ensures
        r == grey_of(value as int, max as int),
{
    assert(grey_level(value as int, max as int) <= 255) by (nonlinear_arith)
        requires value <= max, 0 < max;
    let level: u8 = (255 * (value as u128) / (max as u128)) as u8;
    (level, level, level)
}

/// Pixel `(x, y)` and its index `y * width + x` below `width * height`.
proof fn lemma_cell(i: int, x: int, y: int, width: int, height: int)
    requires
        i == y * width + x,
        0 <= x < width,
        0 <= y < height,
    ensures
        i < width * height,
        i % width == x,
        i / width == y,
        (y + 1) * width == y * width + width,
{
    assert(i < width * height && i % width == x && i / width == y && (y + 1) * width == y * width + width)
        by (nonlinear_arith)
        requires i == y * width + x, 0 <= x < width, 0 <= y < height;
}

/// Copies the texture over the top-left corner of `image`, clipped to both.
fn copy_texture(image: &mut Image, tex: &Image)
    ensures
        image_width_of(*final(image)) == image_width_of(*old(image)),
        image_height_of(*final(image)) == image_height_of(*old(image)),
        image_pixels(*final(image)) == rendered(
            Which::Texture,
            image_pixels(*old(image)),
            image_width_of(*old(image)) as int,
            image_height_of(*old(image)) as int,
            image_pixels(*tex),
            image_width_of(*tex) as int,
            image_height_of(*tex) as int,
            Seq::empty(),
            Seq::empty(),
            0,
            Frame { elapsed: 0, shift_x: 0, shift_y: 0 },
        ),
{
    let width = image_width(image);
    let height = image_height(image);
    let texwidth = image_width(tex);
    let texheight = image_height(tex);
    let ghost w = width as int;
    let ghost before = image_pixels(*image);
    let ghost want = rendered(
        Which::Texture, before, w, height as int, image_pixels(*tex), texwidth as int,
        texheight as int, Seq::empty(), Seq::empty(), 0, Frame { elapsed: 0, shift_x: 0, shift_y: 0 },
    );
    let rows: usize = if height < texheight { height } else { texheight };
    let mut y: usize = 0;
    while y < rows
        invariant
            w == width,
            rows <= height,
            rows <= texheight,
            y <= rows,
            image_width_of(*image) == width,
            image_height_of(*image) == height,
            image_width_of(*tex) == texwidth,
            image_height_of(*tex) == texheight,
            image_pixels(*image).len() == width * height,
            before.len() == width * height,
            want == rendered(
                Which::Texture, before, w, height as int, image_pixels(*tex), texwidth as int,
                texheight as int, Seq::empty(), Seq::empty(), 0, Frame { elapsed: 0, shift_x: 0, shift_y: 0 },
            ),
            forall|i: int| 0 <= i < y * w ==> #[trigger] image_pixels(*image)[i] == want[i],
            forall|i: int| y * w <= i < width * height ==> #[trigger] image_pixels(*image)[i] == before[i],
        decreases rows - y,
    {
        let mut x: usize = 0;
        while x < width
            invariant
                w == width,
                rows <= height,
                rows <= texheight,
                y < rows,
                x <= width,
                image_width_of(*image) == width,
                image_height_of(*image) == height,
                image_width_of(*tex) == texwidth,
                image_height_of(*tex) == texheight,
                image_pixels(*image).len() == width * height,
                before.len() == width * height,
                want == rendered(
                    Which::Texture, before, w, height as int, image_pixels(*tex), texwidth as int,
                    texheight as int, Seq::empty(), Seq::empty(), 0, Frame { elapsed: 0, shift_x: 0, shift_y: 0 },
                ),
                forall|i: int| 0 <= i < y * w + x ==> #[trigger] image_pixels(*image)[i] == want[i],
                forall|i: int| y * w + x <= i < width * height ==> #[trigger] image_pixels(*image)[i] == before[i],
            decreases width - x,
        {
            let ghost i: int = y * w + x;
            proof {
                lemma_cell(i, x as int, y as int, w, height as int);
            }
            if x < texwidth {
                let c = pixel_at(tex, x, y);
                set_pixel(image, x, y, c);
            }
            assert(image_pixels(*image)[i] == want[i]);
            x = x + 1;
        }
        assert((y + 1) * w == y * w + w) by (nonlinear_arith);
        y = y + 1;
    }
    proof {
        assert forall|i: int| y * w <= i < width * height implies #[trigger] want[i] == before[i] by {
            assert(0 < w) by (nonlinear_arith)
                requires 0 <= i < w * height, 0 <= height;
            assert(i / w >= y && i / w < height) by (nonlinear_arith)
                requires y * w <= i < w * height, 0 < w, 0 <= y;
            assert(rows == texheight);
            assert(!(i / w < texheight));
        }
    }
    assert(image_pixels(*image) =~= want);
}

/// The window that frame `f` reads lies inside maps `map_width` wide
/// holding `dist_len` and `angle_len` cells.
pub open spec fn frame_fits(width: int, height: int, dist_len: int, angle_len: int, map_width: int, f: Frame) -> bool {
    &&& f.shift_x + width <= map_width
    &&& (f.shift_y + height) * map_width <= dist_len
    &&& (f.shift_y + height) * map_width <= angle_len
}

/// Composes one frame into `image`.
///
/// In `Texture` mode the texture is copied over the image's top-left corner.
/// Otherwise each pixel `(x, y)` reads map cell `(x + shift_x, y + shift_y)`
/// of maps `map_width` wide, turns the angle by `SPIN` and pushes the
/// distance by `SPEED` per elapsed tick, folds both into the texture, and
/// shows the texel there (`Effect`) or the grey of the distance
/// (`Distance`) or of the angle (`Angle`).
pub fn render_frame(
    image: &mut Image,
    which: Which,
    tex: &Image,
    distmap: &Vec<usize>,
    anglemap: &Vec<usize>,
    map_width: usize,
    f: Frame,
)
    requires
        0 < image_width_of(*tex),
        0 < image_height_of(*tex),
        which != Which::Texture ==> frame_fits(
            image_width_of(*old(image)) as int,
            image_height_of(*old(image)) as int,
            distmap@.len() as int,
            anglemap@.len() as int,
            map_width as int,
            f,
        ),
    ensures
        image_width_of(*final(image)) == image_width_of(*old(image)),
        image_height_of(*final(image)) == image_height_of(*old(image)),
        image_pixels(*final(image)) == rendered(
            which,
            image_pixels(*old(image)),
            image_width_of(*old(image)) as int,
            image_height_of(*old(image)) as int,
            image_pixels(*tex),
            image_width_of(*tex) as int,
            image_height_of(*tex) as int,
            distmap@,
            anglemap@,
            map_width as int,
            f,
        ),
{
    if which == Which::Texture {
        copy_texture(image, tex);
        assert(image_pixels(*image) =~= rendered(
            which,
            image_pixels(*old(image)),
            image_width_of(*old(image)) as int,
            image_height_of(*old(image)) as int,
            image_pixels(*tex),
            image_width_of(*tex) as int,
            image_height_of(*tex) as int,
            distmap@,
            anglemap@,
            map_width as int,
            f,
        ));
        return;
    }
    let width = image_width(image);
    let height = image_height(image);
    let texwidth = image_width(tex);
    let texheight = image_height(tex);
    let dist_len: usize = distmap.len();
    let ghost w = width as int;
    let ghost want = rendered(
        which, image_pixels(*image), w, height as int, image_pixels(*tex), texwidth as int,
        texheight as int, distmap@, anglemap@, map_width as int, f,
    );
    let mut y: usize = 0;
    while y < height
        invariant
            w == width,
            which != Which::Texture,
            distmap@.len() == dist_len,
            y <= height,
            0 < texwidth,
            0 < texheight,
            image_width_of(*image) == width,
            image_height_of(*image) == height,
            image_width_of(*tex) == texwidth,
            image_height_of(*tex) == texheight,
            image_pixels(*image).len() == width * height,
            frame_fits(w, height as int, distmap@.len() as int, anglemap@.len() as int, map_width as int, f),
            want == rendered(
                which, image_pixels(*old(image)), w, height as int, image_pixels(*tex), texwidth as int,
                texheight as int, distmap@, anglemap@, map_width as int, f,
            ),
            forall|i: int| 0 <= i < y * w ==> #[trigger] image_pixels(*image)[i] == want[i],
        decreases height - y,
    {
        let mut x: usize = 0;
        while x < width
            invariant
                w == width,
                which != Which::Texture,
                distmap@.len() == dist_len,
                y < height,
                x <= width,
                0 < texwidth,
                0 < texheight,
                image_width_of(*image) == width,
                image_height_of(*image) == height,
                image_width_of(*tex) == texwidth,
                image_height_of(*tex) == texheight,
                image_pixels(*image).len() == width * height,
                frame_fits(w, height as int, distmap@.len() as int, anglemap@.len() as int, map_width as int, f),
                want == rendered(
                    which, image_pixels(*old(image)), w, height as int, image_pixels(*tex), texwidth as int,
                    texheight as int, distmap@, anglemap@, map_width as int, f,
                ),
                forall|i: int| 0 <= i < y * w + x ==> #[trigger] image_pixels(*image)[i] == want[i],
            decreases width - x,
        {
            let ghost i: int = y * w + x;
            proof {
                lemma_cell(i, x as int, y as int, w, height as int);
                assert((y + f.shift_y) * map_width + (x + f.shift_x) < (f.shift_y + height) * map_width
                    && y + f.shift_y <= (f.shift_y + height) * map_width
                    && (y + f.shift_y) * map_width <= (f.shift_y + height) * map_width)
                    by (nonlinear_arith)
                    requires y < height, x + f.shift_x < map_width, 0 <= x;
                assert(distmap@.len() == dist_len);
            }
            let o: usize = (y + f.shift_y) * map_width + (x + f.shift_x);
            let angle: usize = ((anglemap[o] as u128 + 3 * (f.elapsed as u128)) % (texwidth as u128)) as usize;
            let dist: usize = ((distmap[o] as u128 + 10 * (f.elapsed as u128)) % (texheight as u128)) as usize;
            let c: Rgb = match which {
                Which::Distance => grey(dist, texheight),
                Which::Angle => grey(angle, texwidth),
                _ => pixel_at(tex, angle, dist),
            };
            set_pixel(image, x, y, c);
            assert(image_pixels(*image)[i] == want[i]);
            x = x + 1;
        }
        assert((y + 1) * w == y * w + w) by (nonlinear_arith);
        y = y + 1;
    }
    assert(y * w == width * height) by (nonlinear_arith)
        requires y == height, w == width;
    assert(image_pixels(*image) =~= want);
}

/// A frame in a mode that samples the maps is fixed by the texture, the
/// maps and the frame's ticks and shift: what the image held before does
/// not matter, so equal inputs give identical images.
pub proof fn lemma_frame_deterministic(
    which: Which,
    before1: Seq<Rgb>,
    before2: Seq<Rgb>,
    width: int,
    height: int,
    tex: Seq<Rgb>,
    texwidth: int,
    texheight: int,
    distmap: Seq<usize>,
    anglemap: Seq<usize>,
    map_width: int,
    f: Frame,
)
    requires
        which != Which::Texture,
    ensures
        rendered(which, before1, width, height, tex, texwidth, texheight, distmap, anglemap, map_width, f)
            == rendered(which, before2, width, height, tex, texwidth, texheight, distmap, anglemap, map_width, f),
{
    assert(rendered(which, before1, width, height, tex, texwidth, texheight, distmap, anglemap, map_width, f)
        =~= rendered(which, before2, width, height, tex, texwidth, texheight, distmap, anglemap, map_width, f));
}

/// In `Texture` mode the frame, cropped to the texture's size, is exactly
/// the texture that `render_texture` builds.
pub proof fn lemma_texture_mode_round_trip(
    before: Seq<Rgb>,
    width: int,
    height: int,
    texwidth: nat,
    texheight: nat,
    distmap: Seq<usize>,
    anglemap: Seq<usize>,
    map_width: int,
    f: Frame,
)
    requires
        before.len() == width * height,
        0 < texwidth <= width,
        0 < texheight <= height,
    ensures
        ({
            let out = rendered(
                Which::Texture, before, width, height, texture_pixels(texwidth, texheight),
                texwidth as int, texheight as int, distmap, anglemap, map_width, f,
            );
            Seq::new(texwidth * texheight, |i: int| out[(i / texwidth as int) * width + i % texwidth as int])
                == texture_pixels(texwidth, texheight)
        }),
{
    let tw = texwidth as int;
    let th = texheight as int;
    let tex = texture_pixels(texwidth, texheight);
    let out = rendered(Which::Texture, before, width, height, tex, tw, th, distmap, anglemap, map_width, f);
    let crop = Seq::new(texwidth * texheight, |i: int| out[(i / tw) * width + i % tw]);
    assert forall|i: int| 0 <= i < texwidth * texheight implies #[trigger] crop[i] == tex[i] by {
        let x = i % tw;
        let y = i / tw;
        let j = y * width + x;
        assert(0 <= x < tw && 0 <= y < th && i == y * tw + x) by (nonlinear_arith)
            requires x == i % tw, y == i / tw, 0 <= i < tw * th, 0 < tw;
        assert(0 <= j < width * height && j % width == x && j / width == y) by (nonlinear_arith)
            requires j == y * width + x, 0 <= x < tw, tw <= width, 0 <= y < th, th <= height;
    }
    assert(crop =~= tex);
}

} // verus!
