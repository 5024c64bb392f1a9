//! The RGBA image that a finished capture is handed over as.

use crate::geometry::{lemma_size_counts_pixels, BufferGeometry, LengthMismatch};
use crate::pixels::{bgrx_to_rgba, rgba_of_bgrx};
use image::{ImageBuffer, Rgba};
use vstd::prelude::*;

verus! {

/// An `image::ImageBuffer` of 8-bit RGBA pixels over a `Vec<u8>`. Its inside is
/// opaque to proofs: what it holds is spoken of through [`image_samples`] and
/// [`image_dimensions`], and nothing is known of these two but what the
/// functions below state of the calls into the `image` crate.
#[verifier::external_body]
pub struct RgbaImage {
    inner: ImageBuffer<Rgba<u8>, Vec<u8>>,
}

/// The samples that an image holds, in the order of its container: what
/// `image::ImageBuffer::as_raw` shows and `into_raw` gives back.
pub uninterp spec fn image_samples(image: RgbaImage) -> Seq<u8>;

/// Width and height of an image, in pixels: what
/// `image::ImageBuffer::dimensions` returns.
pub uninterp spec fn image_dimensions(image: RgbaImage) -> (int, int);

/// Whether a container of `len` samples is large enough for an RGBA image of
/// `width` by `height` pixels: the length of one row fits a `usize`, and the
/// container holds at least four samples for each pixel.
pub open spec fn holds_image(width: int, height: int, len: int) -> bool {
    &&& 4 * width <= usize::MAX
    &&& 4 * width * height <= len
}

/// `image::ImageBuffer::from_raw`. The call succeeds exactly when `samples` is
/// large enough for `width` by `height` pixels; the image then has these
/// dimensions and holds the samples as they were handed in.
#[verifier::external_body]
fn image_from_raw(width: u32, height: u32, samples: Vec<u8>) -> (made: Option<RgbaImage>)
    ensures
        made.is_some() <==> holds_image(width as int, height as int, samples@.len() as int),
        made matches Some(img) ==> {
            &&& image_samples(img) == samples@
            &&& image_dimensions(img).0 == width
            &&& image_dimensions(img).1 == height
        },
{
    match ImageBuffer::from_raw(width, height, samples) {
        Some(inner) => Some(RgbaImage { inner }),
        None => None,
    }
}

/// `image::ImageBuffer::dimensions`: width and height as the image was made with.
#[verifier::external_body]
fn image_size(image: &RgbaImage) -> (size: (u32, u32))
    ensures
        size.0 == image_dimensions(*image).0,
        size.1 == image_dimensions(*image).1,
{
    image.inner.dimensions()
}

/// `image::ImageBuffer::into_raw`: the container of the image, samples unchanged.
#[verifier::external_body]
fn image_into_raw(image: RgbaImage) -> (samples: Vec<u8>)
    ensures
        samples@ == image_samples(image),
{
    image.inner.into_raw()
}

impl RgbaImage {
    /// Takes the image apart into width, height and samples.
    pub fn into_parts(self) -> (parts: (u32, u32, Vec<u8>))
        ensures
            parts.0 == image_dimensions(self).0,
            parts.1 == image_dimensions(self).1,
            parts.2@ == image_samples(self),
    {
        let (width, height): (u32, u32) = image_size(&self);
        let samples: Vec<u8> = image_into_raw(self);
        (width, height, samples)
    }
}

/// Renders the region that the compositor filled as an RGBA image of the
/// buffer's width and height. A region whose length is not the size of the
/// buffer is refused, whether it is shorter or longer.
pub fn render_frame(raw: &[u8], geometry: &BufferGeometry) -> (frame: Result<
    RgbaImage,
    LengthMismatch,
>)
    ensures
        frame.is_ok() <==> raw@.len() == geometry.spec_size(),
        frame matches Ok(image) ==> {
            &&& image_samples(image) == rgba_of_bgrx(raw@)
            &&& image_dimensions(image).0 == geometry.spec_width()
            &&& image_dimensions(image).1 == geometry.spec_height()
        },
        frame matches Err(mismatch) ==> {
            &&& mismatch.expected == geometry.spec_size()
            &&& mismatch.actual == raw@.len()
        },
{
    proof {
        use_type_invariant(geometry);
        lemma_size_counts_pixels(geometry.spec_width(), geometry.spec_height());
    }
    match geometry.check_region(raw.len()) {
        Err(mismatch) => Err(mismatch),
        Ok(()) => {
            let samples: Vec<u8> = bgrx_to_rgba(raw);
            let width: u32 = geometry.width() as u32;
            let height: u32 = geometry.height() as u32;
            match image_from_raw(width, height, samples) {
                Some(image) => Ok(image),
                // A region of the buffer's size renders to exactly the samples
                // that an image of the buffer's width and height holds.
                None => unreached(),
            }
        },
    }
}

} // verus!
