//! Trusted access to pixel_canvas's `Image`, a row-major grid of RGB colors.
use pixel_canvas::{Color, Image, XY};
use vstd::prelude::*;

verus! {

/// An RGB sample as (red, green, blue).
pub type Rgb = (u8, u8, u8);

#[verifier::external_type_specification]
#[verifier::external_body]
pub struct ExImage(Image);

#[verifier::external_type_specification]
#[verifier::external_body]
pub struct ExColor(Color);

/// The pixels of an image, row by row.
pub uninterp spec fn image_pixels(img: Image) -> Seq<Rgb>;

/// The width an image was created with.
pub uninterp spec fn image_width_of(img: Image) -> usize;

/// The height an image was created with.
pub uninterp spec fn image_height_of(img: Image) -> usize;

/// Relies on pixel_canvas's `Image::new`: an all-black image of
/// `width * height` pixels.
#[verifier::external_body]
pub(crate) fn new_image(width: usize, height: usize) -> (r: Image)
    requires
        width * height <= usize::MAX,
    ensures
        image_width_of(r) == width,
        image_height_of(r) == height,
        image_pixels(r) == Seq::new((width * height) as nat, |i: int| (0u8, 0u8, 0u8)),
{
    Image::new(width, height)
}

/// Relies on pixel_canvas's `Image::width`. Its fields are private and only
/// `Image::new` sets them, with `width * height` pixels; `DerefMut` hands
/// out a slice, which cannot change the length.
#[verifier::external_body]
pub(crate) fn image_width(img: &Image) -> (r: usize)
    ensures
        r == image_width_of(*img),
        image_pixels(*img).len() == r * image_height_of(*img),
{
    img.width()
}

/// Relies on pixel_canvas's `Image::height`, as `image_width` does.
#[verifier::external_body]
pub(crate) fn image_height(img: &Image) -> (r: usize)
    ensures
        r == image_height_of(*img),
        image_pixels(*img).len() == image_width_of(*img) * r,
{
    img.height()
}

/// Relies on `Image`'s `Index<XY>`: reads pixel `y * width + x`.
#[verifier::external_body]
pub(crate) fn pixel_at(img: &Image, x: usize, y: usize) -> (r: Rgb)
    requires
        x < image_width_of(*img),
        y < image_height_of(*img),
    ensures
        r == image_pixels(*img)[y * image_width_of(*img) + x],
{
    let c = img[XY(x, y)];
    (c.r, c.g, c.b)
}

/// Relies on `Image`'s `IndexMut<XY>` and on `Color::rgb`: overwrites
/// pixel `y * width + x` and nothing else.
#[verifier::external_body]
pub(crate) fn set_pixel(img: &mut Image, x: usize, y: usize, c: Rgb)
    requires
        x < image_width_of(*old(img)),
        y < image_height_of(*old(img)),
    ensures
        image_pixels(*final(img)) == image_pixels(*old(img)).update(
            y * image_width_of(*old(img)) + x,
            c,
        ),
        image_width_of(*final(img)) == image_width_of(*old(img)),
        image_height_of(*final(img)) == image_height_of(*old(img)),
{
    img[XY(x, y)] = Color::rgb(c.0, c.1, c.2);
}

} // verus!
