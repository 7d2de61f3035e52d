//! Key images: three-channel pixel grids, the blank canvases a deck is
//! cleared with, and the adapter that fits an image to a key.

use vstd::prelude::*;

verus! {

/// What an image is: its dimensions and its pixel bytes, three per pixel,
/// row by row from the top left.
pub struct ImageView {
    pub width: nat,
    pub height: nat,
    pub pixels: Seq<u8>,
}

/// Least integer not below `a / b`, for positive `b`.
pub open spec fn ceil_div(a: int, b: int) -> int {
    (a + b - 1) / b
}

/// The larger of `a` and 1.
pub open spec fn at_least_one(a: int) -> int {
    if a < 1 {
        1
    } else {
        a
    }
}

/// Width of the canvas an image of `w` by `h` is scaled to so that it covers
/// `tw` by `th` with its aspect ratio kept: rounded up, and one pixel at
/// least.
pub open spec fn cover_width(w: int, h: int, tw: int, th: int) -> int {
    if w * th >= tw * h {
        at_least_one(ceil_div(w * th, h))
    } else {
        at_least_one(tw)
    }
}

/// Height of that canvas.
pub open spec fn cover_height(w: int, h: int, tw: int, th: int) -> int {
    if w * th >= tw * h {
        at_least_one(th)
    } else {
        at_least_one(ceil_div(h * tw, w))
    }
}

/// Largest width or height the resampling works with: pixel positions are
/// computed in 32-bit floats, which hold the integers up to this one exactly.
pub const MAX_RESAMPLE_DIM: u32 = 0x100_0000;

/// An image of `w` by `h` can be resampled to cover `tw` by `th`: the image
/// is not empty, the image and the covering canvas are within
/// [`MAX_RESAMPLE_DIM`], and the covering canvas (3 bytes a pixel) and the
/// intermediate one that is scaled in height only (16 bytes a pixel) can be
/// allocated.
pub open spec fn resample_fits(w: int, h: int, tw: int, th: int) -> bool {
    &&& 1 <= w <= MAX_RESAMPLE_DIM
    &&& 1 <= h <= MAX_RESAMPLE_DIM
    &&& 0 <= tw
    &&& 0 <= th
    &&& cover_width(w, h, tw, th) <= MAX_RESAMPLE_DIM
    &&& cover_height(w, h, tw, th) <= MAX_RESAMPLE_DIM
    &&& 16 * (w * cover_height(w, h, tw, th)) <= isize::MAX
    &&& 3 * (cover_width(w, h, tw, th) * cover_height(w, h, tw, th)) <= isize::MAX
}

impl ImageView {
    /// The pixel bytes match the dimensions.
    pub open spec fn wf(self) -> bool {
        self.pixels.len() == 3 * (self.width * self.height)
    }

    /// The image is larger than the target in at least one dimension.
    pub open spec fn needs_resize(self, target_width: int, target_height: int) -> bool {
        self.width > target_width || self.height > target_height
    }

    /// Adapting the image to the target is within the machine's limits.
    pub open spec fn adaptable(self, target_width: int, target_height: int) -> bool {
        self.needs_resize(target_width, target_height) ==> resample_fits(
            self.width as int,
            self.height as int,
            target_width,
            target_height,
        )
    }
}

/// The bytes of a canvas of `width` by `height` whose every pixel is
/// `(r, g, b)`.
pub open spec fn filled_pixels(width: nat, height: nat, r: u8, g: u8, b: u8) -> Seq<u8> {
    Seq::new(
        3 * (width * height),
        |i: int|
            if i % 3 == 0 {
                r
            } else if i % 3 == 1 {
                g
            } else {
                b
            },
    )
}

/// A pixel grid with three channels of eight bits.
#[derive(Debug)]
pub struct KeyImage {
    width: u32,
    height: u32,
    pixels: Vec<u8>,
}

impl View for KeyImage {
    type V = ImageView;

    closed spec fn view(&self) -> ImageView {
        ImageView {
            width: self.width as nat,
            height: self.height as nat,
            pixels: self.pixels@,
        }
    }
}

impl KeyImage {
    #[verifier::type_invariant]
    spec fn inv(self) -> bool {
        self.pixels@.len() == 3 * (self.width * self.height)
    }

    /// An image over the given bytes, if there are exactly three per pixel.
    pub fn from_raw(width: u32, height: u32, pixels: Vec<u8>) -> (made: Option<KeyImage>)
        ensures
            made is Some <==> pixels@.len() == 3 * (width * height),
            made matches Some(img) ==> img@ == (ImageView {
                width: width as nat,
                height: height as nat,
                pixels: pixels@,
            }),
    {
        assert(width * height <= 0xffff_ffff * 0xffff_ffff) by (nonlinear_arith)
            requires
                width <= 0xffff_ffff,
                height <= 0xffff_ffff,
        ;
        let want: u128 = 3 * (width as u128 * height as u128);
        if pixels.len() as u128 == want {
            Some(KeyImage { width, height, pixels })
        } else {
            None
        }
    }

    /// Width in pixels.
    pub fn width(&self) -> (w: u32)
        ensures
            w == self@.width,
    {
        self.width
    }

    /// Height in pixels.
    pub fn height(&self) -> (h: u32)
        ensures
            h == self@.height,
    {
        self.height
    }

    /// The pixel bytes.
    pub fn as_raw(&self) -> (bytes: &Vec<u8>)
        ensures
            bytes@ == self@.pixels,
            self@.wf(),
    {
        proof {
            use_type_invariant(self);
        }
        &self.pixels
    }

    /// The pixel bytes, by value.
    pub fn into_raw(self) -> (bytes: Vec<u8>)
        ensures
            bytes@ == self@.pixels,
            self@.wf(),
    {
        proof {
            use_type_invariant(&self);
        }
        self.pixels
    }
}

/// Resamples `img` to `target_width` by `target_height` with
/// `image::DynamicImage::resize_to_fill` and the Lanczos filter of window 3:
/// the image is scaled, keeping its aspect ratio, until it covers the target,
/// and what sticks out is cropped off evenly. The contract claims the
/// dimensions of what comes back, and nothing of its pixel values. It leaves
/// out the inputs on which there is nothing to sample, on which pixel
/// positions are beyond what the filter's 32-bit floats hold exactly, and on
/// which a buffer cannot be allocated. A target without pixels is in order.
#[verifier::external_body]
fn resize_to_fill(img: &KeyImage, target_width: u32, target_height: u32) -> (out: KeyImage)
    requires
        img@.wf(),
        resample_fits(
            img@.width as int,
            img@.height as int,
            target_width as int,
            target_height as int,
        ),
    ensures
        out@.width == target_width,
        out@.height == target_height,
        out@.wf(),
{
    let source = image::RgbImage::from_raw(img.width, img.height, img.pixels.clone())
        .expect("three bytes per pixel");
    let scaled = image::DynamicImage::ImageRgb8(source)
        .resize_to_fill(target_width, target_height, image::imageops::FilterType::Lanczos3)
        .to_rgb8();
    KeyImage { width: scaled.width(), height: scaled.height(), pixels: scaled.into_raw() }
}

impl Clone for KeyImage {
    fn clone(&self) -> (out: Self)
        ensures
            out@ == self@,
    {
        proof {
            use_type_invariant(self);
        }
        let pixels = self.pixels.clone();
        assert(pixels@ =~= self.pixels@);
        KeyImage { width: self.width, height: self.height, pixels }
    }
}

impl KeyImage {
    /// Whether [`KeyImage::adapt`] can be asked for this target.
    pub fn can_adapt(&self, target_width: u32, target_height: u32) -> (yes: bool)
        ensures
            yes == self@.adaptable(target_width as int, target_height as int),
    {
        if !(self.width > target_width || self.height > target_height) {
            return true;
        }
        if self.width == 0 || self.height == 0 {
            return false;
        }
        let w = self.width as u128;
        let h = self.height as u128;
        let tw = target_width as u128;
        let th = target_height as u128;
        proof {
            lemma_product_bound(w as int, th as int);
            lemma_product_bound(tw as int, h as int);
        }
        let (cw, ch) = if w * th >= tw * h {
            (one_or_more((w * th + h - 1) / h), one_or_more(th))
        } else {
            (one_or_more(tw), one_or_more((h * tw + w - 1) / w))
        };
        assert(cw == cover_width(w as int, h as int, tw as int, th as int));
        assert(ch == cover_height(w as int, h as int, tw as int, th as int));
        let max = MAX_RESAMPLE_DIM as u128;
        if w > max || h > max || cw > max || ch > max {
            return false;
        }
        proof {
            lemma_product_bound(w as int, ch as int);
            lemma_product_bound(cw as int, ch as int);
        }
        16 * (w * ch) <= isize::MAX as u128 && 3 * (cw * ch) <= isize::MAX as u128
    }

    /// Fits the image to a key of `target_width` by `target_height`.
    ///
    /// An image larger than the target in width or in height is resampled to
    /// cover the whole target, and what sticks out is cropped: the result has
    /// exactly the target's dimensions. Any other image, a smaller one too,
    /// comes back as an identical copy.
    pub fn adapt(&self, target_width: u32, target_height: u32) -> (out: KeyImage)
        requires
            self@.adaptable(target_width as int, target_height as int),
        ensures
            out@.wf(),
            !self@.needs_resize(target_width as int, target_height as int) ==> out@ == self@,
            self@.needs_resize(target_width as int, target_height as int) ==> out@.width
                == target_width && out@.height == target_height,
    {
        proof {
            use_type_invariant(self);
        }
        if self.width > target_width || self.height > target_height {
            resize_to_fill(self, target_width, target_height)
        } else {
            self.clone()
        }
    }
}

/// The larger of `a` and 1.
fn one_or_more(a: u128) -> (b: u128)
    ensures
        b == at_least_one(a as int),
{
    if a < 1 {
        1
    } else {
        a
    }
}

/// The product of two 32-bit values fits 64 bits.
proof fn lemma_product_bound(a: int, b: int)
    requires
        0 <= a <= 0xffff_ffff,
        0 <= b <= 0xffff_ffff,
    ensures
        0 <= a * b <= 0xffff_ffff * 0xffff_ffff,
{
    assert(0 <= a * b <= 0xffff_ffff * 0xffff_ffff) by (nonlinear_arith)
        requires
            0 <= a <= 0xffff_ffff,
            0 <= b <= 0xffff_ffff,
    ;
}

/// Maker of the blank canvases a deck's keys are cleared with.
#[derive(Debug)]
pub struct KeyImg {}

impl KeyImg {
    pub fn new() -> (maker: Self)
        ensures
            maker == (KeyImg {  }),
    {
        KeyImg {  }
    }

    /// A canvas of `width` by `height` whose every byte is zero.
    pub fn new_black_image(width: u32, height: u32) -> (img: KeyImage)
        requires
            3 * (width * height) <= usize::MAX,
        ensures
            img@ == (ImageView {
                width: width as nat,
                height: height as nat,
                pixels: filled_pixels(width as nat, height as nat, 0, 0, 0),
            }),
            img@.wf(),
    {
        Self::new_filled_image(width, height, 0, 0, 0, 255)
    }

    /// A canvas of `width` by `height` whose every pixel is `(r, g, b)`. The
    /// opacity `o` is accepted and unused: a key image has no fourth channel.
    pub fn new_filled_image(width: u32, height: u32, r: u8, g: u8, b: u8, o: u8) -> (img:
        KeyImage)
        requires
            3 * (width * height) <= usize::MAX,
        ensures
            img@ == (ImageView {
                width: width as nat,
                height: height as nat,
                pixels: filled_pixels(width as nat, height as nat, r, g, b),
            }),
            img@.wf(),
    {
        assert(width * height >= 0) by (nonlinear_arith);
        let count: usize = width as usize * height as usize;
        let mut pixels: Vec<u8> = Vec::new();
        let mut done: usize = 0;
        while done < count
            invariant
                count == width * height,
                3 * count <= usize::MAX,
                done <= count,
                pixels@ == filled_pixels(done as nat, 1, r, g, b),
            decreases count - done,
        {
            pixels.push(r);
            pixels.push(g);
            pixels.push(b);
            done += 1;
            assert(pixels@ =~= filled_pixels(done as nat, 1, r, g, b));
        }
        assert(pixels@ =~= filled_pixels(width as nat, height as nat, r, g, b));
        KeyImage { width, height, pixels }
    }
}

} // verus!
