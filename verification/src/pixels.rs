//! Conversion of the pixels that the compositor delivers (blue, green, red,
//! padding) into the channel order of an RGBA image (red, green, blue, alpha).

use vstd::prelude::*;

verus! {

/// Alpha value of a fully opaque pixel.
pub const OPAQUE: u8 = 0xFF;

/// The byte at position `i` of the RGBA rendering of `raw`: the colour channels
/// of the pixel that `i` falls into, with red and blue exchanged, and an opaque
/// alpha in place of the padding byte.
pub open spec fn rgba_sample(raw: Seq<u8>, i: int) -> u8 {
    let first = i - i % 4;
    if i % 4 == 0 {
        raw[first + 2]
    } else if i % 4 == 1 {
        raw[first + 1]
    } else if i % 4 == 2 {
        raw[first]
    } else {
        OPAQUE
    }
}

/// The RGBA rendering of a run of whole BGRX pixels: as many pixels, in the same
/// order.
pub open spec fn rgba_of_bgrx(raw: Seq<u8>) -> Seq<u8> {
    Seq::new(raw.len(), |i: int| rgba_sample(raw, i))
}

/// Whether `a` and `b` hold the same blue, green and red bytes in pixel `k`.
pub open spec fn same_colour(a: Seq<u8>, b: Seq<u8>, k: int) -> bool {
    &&& a[4 * k] == b[4 * k]
    &&& a[4 * k + 1] == b[4 * k + 1]
    &&& a[4 * k + 2] == b[4 * k + 2]
}

/// Converts whole BGRX pixels to RGBA.
pub fn bgrx_to_rgba(raw: &[u8]) -> (out: Vec<u8>)
    requires
        raw@.len() % 4 == 0,
    ensures
        out@ == rgba_of_bgrx(raw@),
{
    let n: usize = raw.len();
    let mut out: Vec<u8> = Vec::with_capacity(n);
    let mut i: usize = 0;
    while i < n
        invariant
            n == raw@.len(),
            n % 4 == 0,
            i % 4 == 0,
            i <= n,
            out@.len() == i,
            forall|j: int| 0 <= j < i ==> out@[j] == rgba_sample(raw@, j),
        decreases n - i,
    {
        out.push(raw[i + 2]);
        out.push(raw[i + 1]);
        out.push(raw[i]);
        out.push(OPAQUE);
        i += 4;
    }
    assert(out@ =~= rgba_of_bgrx(raw@));
    out
}

/// Pixel `k` of the rendering is pixel `k` of the input with its first and third
/// byte exchanged and its fourth byte replaced by an opaque alpha.
pub proof fn lemma_pixel_remap(raw: Seq<u8>, k: int)
    requires
        raw.len() % 4 == 0,
        0 <= k < raw.len() / 4,
    ensures
        rgba_of_bgrx(raw)[4 * k] == raw[4 * k + 2],
        rgba_of_bgrx(raw)[4 * k + 1] == raw[4 * k + 1],
        rgba_of_bgrx(raw)[4 * k + 2] == raw[4 * k],
        rgba_of_bgrx(raw)[4 * k + 3] == OPAQUE,
{
}

/// The rendering has one pixel for each pixel of the input.
pub proof fn lemma_pixel_count(raw: Seq<u8>)
    ensures
        rgba_of_bgrx(raw).len() == raw.len(),
{
}

/// The rendering keeps the colour of every pixel and nothing else: two inputs of
/// equal length render alike exactly when they agree on the colour of each pixel.
pub proof fn lemma_colour_preserved(a: Seq<u8>, b: Seq<u8>)
    requires
        a.len() % 4 == 0,
        a.len() == b.len(),
    ensures
        rgba_of_bgrx(a) == rgba_of_bgrx(b) <==> forall|k: int|
            0 <= k < a.len() / 4 ==> same_colour(a, b, k),
{
    if rgba_of_bgrx(a) == rgba_of_bgrx(b) {
        assert forall|k: int| 0 <= k < a.len() / 4 implies same_colour(a, b, k) by {
            lemma_pixel_remap(a, k);
            lemma_pixel_remap(b, k);
        }
    }
    if forall|k: int| 0 <= k < a.len() / 4 ==> same_colour(a, b, k) {
        assert forall|i: int| 0 <= i < a.len() implies rgba_sample(a, i) == rgba_sample(b, i) by {
            let k = i / 4;
            assert(same_colour(a, b, k));
        }
        assert(rgba_of_bgrx(a) =~= rgba_of_bgrx(b));
    }
}

} // verus!
