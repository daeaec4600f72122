//! The procedural XOR texture.
use crate::image::{image_height_of, image_pixels, image_width_of, new_image, set_pixel, Rgb};
use pixel_canvas::Image;
use vstd::prelude::*;

verus! {

/// The blue channel of texel `(x, y)`: the horizontally and vertically
/// scaled coordinates, each cut to eight bits, XORed together.
pub open spec fn texel_blue(width: nat, height: nat, x: nat, y: nat) -> u8 {
    ((x * 256 / width) as u8) ^ ((y * 256 / height) as u8)
}

/// Texel `(x, y)` of a `width` by `height` texture.
pub open spec fn texel(width: nat, height: nat, x: nat, y: nat) -> Rgb {
    (0u8, 0u8, texel_blue(width, height, x, y))
}

/// The whole texture, row by row.
pub open spec fn texture_pixels(width: nat, height: nat) -> Seq<Rgb> {
    Seq::new(width * height, |i: int| texel(width, height, (i % width as int) as nat, (i / width as int) as nat))
}

/// Builds the `width` by `height` XOR texture.
pub fn render_texture(width: usize, height: usize) -> (tex: Image)
    requires
        width > 0,
        height > 0,
        width * height <= usize::MAX,
        width * 256 <= usize::MAX,
        height * 256 <= usize::MAX,
    ensures
        image_width_of(tex) == width,
        image_height_of(tex) == height,
        image_pixels(tex) == texture_pixels(width as nat, height as nat),
{
    let mut tex = new_image(width, height);
    let ghost w = width as int;
    let mut y: usize = 0;
    while y < height
        invariant
            0 < width,
            w == width,
            y <= height,
            width * height <= usize::MAX,
            width * 256 <= usize::MAX,
            height * 256 <= usize::MAX,
            image_width_of(tex) == width,
            image_height_of(tex) == height,
            image_pixels(tex).len() == width * height,
            forall|i: int| 0 <= i < y * w ==> #[trigger] image_pixels(tex)[i] == texture_pixels(width as nat, height as nat)[i],
        decreases height - y,
    {
        let mut x: usize = 0;
        while x < width
            invariant
                0 < width,
                w == width,
                y < height,
                x <= width,
                width * height <= usize::MAX,
                width * 256 <= usize::MAX,
                height * 256 <= usize::MAX,
                image_width_of(tex) == width,
                image_height_of(tex) == height,
                image_pixels(tex).len() == width * height,
                forall|i: int| 0 <= i < y * w + x ==> #[trigger] image_pixels(tex)[i] == texture_pixels(width as nat, height as nat)[i],
            decreases width - x,
        {
            let ghost i: int = y * w + x;
            assert(i < width * height) by (nonlinear_arith)
                requires y < height, x < width, w == width, i == y * w + x;
            assert((x * 256) as int / (width as int) < 256 && (y * 256) as int / (height as int) < 256) by (nonlinear_arith)
                requires x < width, y < height, 0 < width, 0 < height;
            let blue: u8 = ((x * 256 / width) as u8) ^ ((y * 256 / height) as u8);
            set_pixel(&mut tex, x, y, (0, 0, blue));
            proof {
                assert(i % w == x as int && i / w == y as int) by (nonlinear_arith)
                    requires i == y * w + x, 0 <= x < w;
            }
            x = x + 1;
        }
        assert((y + 1) * w == y * w + w) by (nonlinear_arith);
        y = y + 1;
    }
    assert(y * w == width * height) by (nonlinear_arith)
        requires y == height, w == width;
    assert(image_pixels(tex) =~= texture_pixels(width as nat, height as nat));
    tex
}

} // verus!
