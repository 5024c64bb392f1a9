//! Geometry of the shared-memory buffer that the compositor copies a frame into.

use vstd::prelude::*;

verus! {

/// Bytes that one pixel occupies in the shared buffer.
pub const BYTES_PER_PIXEL: u32 = 4;

/// Largest value that a signed 32-bit protocol argument can carry.
pub const WIRE_INT_MAX: u32 = 0x7fff_ffff;

/// Width in pixels of the output that a session captures.
pub const TARGET_WIDTH: u32 = 1920;

/// Height in pixels of the output that a session captures.
pub const TARGET_HEIGHT: u32 = 1080;

/// Layout of the pixels in the shared buffer.
#[derive(Clone, Copy, Debug, PartialEq, Eq, Structural)]
pub enum PixelFormat {
    /// Four bytes per pixel, in memory order blue, green, red, padding.
    Xrgb8888,
}

impl PixelFormat {
    /// Bytes per pixel of this format.
    pub fn bytes_per_pixel(self) -> (n: u32)
        ensures
            n == BYTES_PER_PIXEL,
    {
        match self {
            PixelFormat::Xrgb8888 => BYTES_PER_PIXEL,
        }
    }
}

/// Bytes in one row of a buffer that is `width` pixels wide.
pub open spec fn stride_for(width: int) -> int {
    width * 4
}

/// Bytes in a whole buffer of `width` by `height` pixels.
pub open spec fn size_for(width: int, height: int) -> int {
    stride_for(width) * height
}

/// Whether width, height, stride and size of such a buffer can all be sent as
/// signed 32-bit protocol arguments.
pub open spec fn fits_wire(width: int, height: int) -> bool {
    &&& 0 <= width
    &&& 0 <= height <= WIRE_INT_MAX
    &&& stride_for(width) <= WIRE_INT_MAX
    &&& size_for(width, height) <= WIRE_INT_MAX
}

/// A buffer holds four bytes for each of its `width` times `height` pixels, so
/// its size is a whole number of pixels.
pub proof fn lemma_size_counts_pixels(width: int, height: int)
    ensures
        size_for(width, height) == 4 * (width * height),
        size_for(width, height) == 4 * width * height,
        size_for(width, height) % 4 == 0,
{
    assert(width * 4 * height == 4 * (width * height)) by (nonlinear_arith);
    assert(4 * width * height == 4 * (width * height)) by (nonlinear_arith);
}

/// Why a mapped region cannot back a buffer: it is not as long as the buffer.
#[derive(Clone, Copy, Debug, PartialEq, Eq, Structural)]
pub struct LengthMismatch {
    /// Bytes that the geometry of the buffer calls for.
    pub expected: usize,
    /// Bytes that the region holds.
    pub actual: usize,
}

/// Description of one buffer carved out of a shared-memory pool: it starts at
/// offset 0 of the pool and covers the pool exactly.
#[derive(Clone, Copy, Debug, PartialEq, Eq, Structural)]
pub struct BufferGeometry {
    width: u32,
    height: u32,
    format: PixelFormat,
}

impl BufferGeometry {
    /// Width in pixels.
    pub closed spec fn spec_width(self) -> int {
        self.width as int
    }

    /// Height in pixels.
    pub closed spec fn spec_height(self) -> int {
        self.height as int
    }

    /// Pixel layout.
    pub closed spec fn spec_format(self) -> PixelFormat {
        self.format
    }

    /// Bytes per row.
    pub open spec fn spec_stride(self) -> int {
        stride_for(self.spec_width())
    }

    /// Bytes in the whole buffer, which is also the length of its backing storage.
    pub open spec fn spec_size(self) -> int {
        size_for(self.spec_width(), self.spec_height())
    }

    /// Every geometry that executable code holds fits the protocol's integers.
    #[verifier::type_invariant]
    pub open spec fn within_wire(self) -> bool {
        fits_wire(self.spec_width(), self.spec_height())
    }

    /// The geometry of a `width` by `height` buffer, or `None` when one of its
    /// four numbers does not fit a signed 32-bit protocol argument.
    pub fn new(width: u32, height: u32, format: PixelFormat) -> (g: Option<BufferGeometry>)
        ensures
            g.is_some() <==> fits_wire(width as int, height as int),
            g matches Some(geometry) ==> {
                &&& geometry.spec_width() == width
                &&& geometry.spec_height() == height
                &&& geometry.spec_format() == format
            },
    {
        if height > WIRE_INT_MAX {
            return None;
        }
        match width.checked_mul(BYTES_PER_PIXEL) {
            None => None,
            Some(stride) => {
                if stride > WIRE_INT_MAX {
                    return None;
                }
                match stride.checked_mul(height) {
                    None => {
                        None
                    },
                    Some(size) => {
                        if size > WIRE_INT_MAX {
                            None
                        } else {
                            Some(BufferGeometry { width, height, format })
                        }
                    },
                }
            },
        }
    }

    /// The geometry of the fixed capture target, for use in specifications.
    pub closed spec fn spec_target() -> BufferGeometry {
        BufferGeometry { width: TARGET_WIDTH, height: TARGET_HEIGHT, format: PixelFormat::Xrgb8888 }
    }

    /// The fixed capture target is `TARGET_WIDTH` by `TARGET_HEIGHT` pixels of
    /// XRGB8888, which fits the protocol's integers.
    pub proof fn lemma_target()
        ensures
            Self::spec_target().spec_width() == TARGET_WIDTH,
            Self::spec_target().spec_height() == TARGET_HEIGHT,
            Self::spec_target().spec_format() == PixelFormat::Xrgb8888,
            Self::spec_target().within_wire(),
    {
    }

    /// The geometry of the fixed capture target.
    #[verifier::when_used_as_spec(spec_target)]
    pub fn target() -> (g: BufferGeometry)
        ensures
            g == Self::spec_target(),
            g.spec_width() == TARGET_WIDTH,
            g.spec_height() == TARGET_HEIGHT,
            g.spec_format() == PixelFormat::Xrgb8888,
    {
        assert(fits_wire(TARGET_WIDTH as int, TARGET_HEIGHT as int));
        BufferGeometry { width: TARGET_WIDTH, height: TARGET_HEIGHT, format: PixelFormat::Xrgb8888 }
    }

    /// Offset of the buffer in its pool.
    pub fn offset(&self) -> (n: i32)
        ensures
            n == 0,
    {
        0
    }

    /// Width in pixels.
    pub fn width(&self) -> (n: i32)
        ensures
            n == self.spec_width(),
    {
        proof {
            use_type_invariant(self);
        }
        self.width as i32
    }

    /// Height in pixels.
    pub fn height(&self) -> (n: i32)
        ensures
            n == self.spec_height(),
    {
        proof {
            use_type_invariant(self);
        }
        self.height as i32
    }

    /// Pixel layout.
    pub fn format(&self) -> (f: PixelFormat)
        ensures
            f == self.spec_format(),
    {
        self.format
    }

    /// Bytes per row: four times the width.
    pub fn stride(&self) -> (n: i32)
        ensures
            n == self.spec_width() * 4,
            n == self.spec_stride(),
    {
        proof {
            use_type_invariant(self);
        }
        (self.width * BYTES_PER_PIXEL) as i32
    }

    /// Bytes in the whole buffer: stride times height.
    pub fn size(&self) -> (n: i32)
        ensures
            n == self.spec_stride() * self.spec_height(),
            n == self.spec_size(),
    {
        proof {
            use_type_invariant(self);
        }
        let stride: u32 = self.width * BYTES_PER_PIXEL;
        (stride * self.height) as i32
    }

    /// Bytes in the whole buffer, as the length of a region of memory.
    pub fn byte_len(&self) -> (n: usize)
        ensures
            n == self.spec_size(),
    {
        self.size() as usize
    }

    /// Holds a mapped region of `len` bytes against the buffer. The region must
    /// be exactly as long as the buffer: a shorter and a longer one are both
    /// refused.
    pub fn check_region(&self, len: usize) -> (checked: Result<(), LengthMismatch>)
        ensures
            checked.is_ok() <==> len == self.spec_size(),
            checked matches Err(mismatch) ==> {
                &&& mismatch.expected == self.spec_size()
                &&& mismatch.actual == len
            },
    {
        let expected: usize = self.byte_len();
        if len == expected {
            Ok(())
        } else {
            Err(LengthMismatch { expected, actual: len })
        }
    }
}

} // verus!
