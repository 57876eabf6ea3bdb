use vstd::prelude::*;

use crate::canvas::Canvas;

verus! {

#[verifier::external_type_specification]
#[verifier::external_body]
pub struct ExDynamicImage(image::DynamicImage);

/// The width and the height of an image, in pixels.
pub uninterp spec fn image_dims(img: image::DynamicImage) -> (nat, nat);

/// Whether an image stores its pixels as four 8-bit channels (red, green, blue,
/// alpha).
pub uninterp spec fn holds_rgba8(img: image::DynamicImage) -> bool;

/// The four channels of each pixel of an RGBA8 image, by column and row.
pub uninterp spec fn rgba8_pixels(img: image::DynamicImage) -> Map<(int, int), Seq<u8>>;

/// The pixels of a `width` by `height` RGBA8 image whose channels are all 0.
pub open spec fn blank_rgba8(width: nat, height: nat) -> Map<(int, int), Seq<u8>> {
    Map::new(
        |p: (int, int)| 0 <= p.0 < width && 0 <= p.1 < height,
        |p: (int, int)| seq![0u8, 0u8, 0u8, 0u8],
    )
}

/// Relies on `image::DynamicImage::new_rgba8`: an RGBA8 image of the given size
/// with every channel 0. It panics where `4 * width`, or that times `height`,
/// overflows `usize`.
#[verifier::external_body]
fn new_rgba8(width: u32, height: u32) -> (r: image::DynamicImage)
    requires
        4 * width <= usize::MAX,
        4 * width * height <= usize::MAX,
    ensures
        image_dims(r) == (width as nat, height as nat),
        holds_rgba8(r),
        rgba8_pixels(r) == blank_rgba8(width as nat, height as nat),
{
    image::DynamicImage::new_rgba8(width, height)
}

/// Relies on `image::GenericImage::put_pixel` for `DynamicImage`: it panics
/// outside the image, keeps the image's size and pixel format, and on an RGBA8
/// image stores the four channels as given.
#[verifier::external_body]
fn put_pixel(img: &mut image::DynamicImage, x: u32, y: u32, rgba: [u8; 4])
    requires
        x < image_dims(*old(img)).0,
        y < image_dims(*old(img)).1,
    ensures
        image_dims(*final(img)) == image_dims(*old(img)),
        holds_rgba8(*final(img)) == holds_rgba8(*old(img)),
        holds_rgba8(*old(img)) ==> rgba8_pixels(*final(img)) == rgba8_pixels(*old(img)).insert(
            (x as int, y as int),
            rgba@,
        ),
{
    image::GenericImage::put_pixel(img, x, y, image::Rgba(rgba));
}

/// The pixels of a `width` by `height` RGBA8 image into which the pixels of
/// `canvas` have been copied in column order, up to pixel `(x, y)` exclusive;
/// the pixels not yet copied are 0 in every channel.
spec fn copied_up_to(canvas: &Canvas<[u8; 4]>, width: int, height: int, x: int, y: int) -> Map<(int, int), Seq<u8>> {
    Map::new(
        |p: (int, int)| 0 <= p.0 < width && 0 <= p.1 < height,
        |p: (int, int)|
            if p.0 < x || (p.0 == x && p.1 < y) {
                canvas.spec_pixel(p.0, p.1)@
            } else {
                seq![0u8, 0u8, 0u8, 0u8]
            },
    )
}

impl Canvas<[u8; 4]> {
    /// An RGBA8 image of the canvas's size whose pixel `(x, y)` holds the four
    /// channels of the canvas's pixel `(x, y)`.
    pub fn to_image(&self) -> (r: image::DynamicImage)
        requires
            self.wf(),
            self.spec_width() <= u32::MAX,
            self.spec_height() <= u32::MAX,
            4 * self.spec_width() <= usize::MAX,
            4 * self.spec_width() * self.spec_height() <= usize::MAX,
        ensures
            image_dims(r) == (self.spec_width(), self.spec_height()),
            holds_rgba8(r),
            rgba8_pixels(r) == Map::new(
                |p: (int, int)| 0 <= p.0 < self.spec_width() && 0 <= p.1 < self.spec_height(),
                |p: (int, int)| self.spec_pixel(p.0, p.1)@,
            ),
    {
        let width = self.width();
        let height = self.height();
        let mut img = new_rgba8(width as u32, height as u32);
        let ghost w = width as int;
        let ghost h = height as int;
        proof {
            assert(rgba8_pixels(img) =~= copied_up_to(self, w, h, 0, 0));
        }
        let mut x: usize = 0;
        while x < width
            invariant
                self.wf(),
                width == self.spec_width(),
                height == self.spec_height(),
                width <= u32::MAX,
                height <= u32::MAX,
                w == width,
                h == height,
                x <= width,
                image_dims(img) == (width as nat, height as nat),
                holds_rgba8(img),
                rgba8_pixels(img) == copied_up_to(self, w, h, x as int, 0),
            decreases width - x,
        {
            let mut y: usize = 0;
            while y < height
                invariant
                    self.wf(),
                    width == self.spec_width(),
                    height == self.spec_height(),
                    width <= u32::MAX,
                    height <= u32::MAX,
                    w == width,
                    h == height,
                    x < width,
                    y <= height,
                    image_dims(img) == (width as nat, height as nat),
                    holds_rgba8(img),
                    rgba8_pixels(img) == copied_up_to(self, w, h, x as int, y as int),
                decreases height - y,
            {
                let rgba = *self.pixel_at(x, y);
                put_pixel(&mut img, x as u32, y as u32, rgba);
                proof {
                    assert(rgba8_pixels(img) =~= copied_up_to(self, w, h, x as int, y + 1));
                }
                y = y + 1;
            }
            proof {
                assert(rgba8_pixels(img) =~= copied_up_to(self, w, h, x + 1, 0));
            }
            x = x + 1;
        }
        proof {
            assert(rgba8_pixels(img) =~= Map::new(
                |p: (int, int)| 0 <= p.0 < self.spec_width() && 0 <= p.1 < self.spec_height(),
                |p: (int, int)| self.spec_pixel(p.0, p.1)@,
            ));
        }
        img
    }
}

} // verus!
