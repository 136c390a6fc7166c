//! Raw pixel buffers and the channel normalizer.
//!
//! A capture transfer hands back rows of 4-byte pixels whose first and third
//! samples are swapped relative to the layout the encoder expects. `grab`
//! checks the transfer against the requested region and wraps it; `normalize`
//! swaps the two samples in every pixel, a self-inverse transform.

use vstd::prelude::*;

use crate::CaptureErrorKind;
use crate::CaptureFault;
use crate::CaptureRegion;

verus! {

/// Where byte `i` of a channel-swapped buffer comes from: bytes 0 and 2 of
/// every 4-byte pixel trade places, bytes 1 and 3 stay.
pub open spec fn swap_src(i: int) -> int {
    if i % 4 == 0 {
        i + 2
    } else if i % 4 == 2 {
        i - 2
    } else {
        i
    }
}

/// The buffer with the first and third sample of every 4-byte pixel swapped.
/// Meaningful when the length is a multiple of 4.
pub open spec fn swapped(s: Seq<u8>) -> Seq<u8> {
    Seq::new(s.len(), |i: int| s[swap_src(i)])
}

/// Swapping the byte positions twice leads back to the original position.
pub proof fn lemma_swap_src_involutive(i: int)
    ensures
        swap_src(swap_src(i)) == i,
{
}

/// The channel swap is self-inverse: applying it twice is the identity.
pub proof fn lemma_swapped_involutive(s: Seq<u8>)
    requires
        s.len() % 4 == 0,
    ensures
        swapped(swapped(s)) == s,
{
    let t = swapped(swapped(s));
    assert forall|i: int| 0 <= i < s.len() implies t[i] == s[i] by {
        lemma_swap_src_involutive(i);
        assert(0 <= swap_src(i) < s.len());
    }
    assert(t =~= s);
}

/// A flat byte buffer of `width * height` pixels, 4 bytes per pixel.
pub struct PixelBuffer {
    data: Vec<u8>,
    width: u32,
    height: u32,
}

impl PixelBuffer {
    /// The bytes of the buffer, rows of 4-byte pixels.
    pub closed spec fn spec_data(self) -> Seq<u8> {
        self.data@
    }

    /// Width in pixels.
    pub closed spec fn spec_width(self) -> int {
        self.width as int
    }

    /// Height in pixels.
    pub closed spec fn spec_height(self) -> int {
        self.height as int
    }

    /// The byte length always matches the stated dimensions.
    pub closed spec fn wf(self) -> bool {
        self.data@.len() == self.width * self.height * 4
    }

    /// Width in pixels.
    pub fn width(&self) -> (w: u32)
        ensures
            w == self.spec_width(),
    {
        self.width
    }

    /// Height in pixels.
    pub fn height(&self) -> (h: u32)
        ensures
            h == self.spec_height(),
    {
        self.height
    }

    /// Read access to the raw bytes.
    pub fn data(&self) -> (d: &Vec<u8>)
        ensures
            d@ == self.spec_data(),
    {
        &self.data
    }

    /// Gives the raw bytes up, consuming the buffer.
    pub fn into_data(self) -> (d: Vec<u8>)
        ensures
            d@ == self.spec_data(),
    {
        self.data
    }

    /// Corrects the channel order of the whole buffer in place: in every
    /// 4-byte pixel the first and third byte trade places. Self-inverse.
    pub fn normalize(&mut self)
        requires
            old(self).wf(),
        ensures
            final(self).wf(),
            final(self).spec_width() == old(self).spec_width(),
            final(self).spec_height() == old(self).spec_height(),
            final(self).spec_data() == swapped(old(self).spec_data()),
    {
        proof {
            lemma_len_multiple_of_four(old(self).width as int, old(self).height as int);
        }
        swap_channels(&mut self.data);
    }
}

/// A buffer sized to `width * height` pixels has a byte length divisible by 4.
proof fn lemma_len_multiple_of_four(w: int, h: int)
    ensures
        (w * h * 4) % 4 == 0,
{
    vstd::arithmetic::div_mod::lemma_mod_multiples_basic(w * h, 4);
}

/// Normalizing a well-formed pixel buffer twice restores every byte: the
/// channel swap that `normalize` performs is its own inverse.
pub proof fn lemma_normalize_involutive(b: PixelBuffer)
    requires
        b.wf(),
    ensures
        swapped(swapped(b.spec_data())) == b.spec_data(),
{
    lemma_len_multiple_of_four(b.spec_width(), b.spec_height());
    lemma_swapped_involutive(b.spec_data());
}

/// Swaps the first and third byte of every 4-byte chunk, in place.
pub fn swap_channels(data: &mut Vec<u8>)
    requires
        old(data)@.len() % 4 == 0,
    ensures
        final(data)@ == swapped(old(data)@),
{
    let ghost orig: Seq<u8> = data@;
    let n = data.len();
    let pixels = n / 4;
    let mut p: usize = 0;
    while p < pixels
        invariant
            pixels == n / 4,
            n == orig.len(),
            n % 4 == 0,
            p <= pixels,
            data@.len() == n,
            forall|i: int| 0 <= i < 4 * p ==> data@[i] == swapped(orig)[i],
            forall|i: int| 4 * p <= i < n ==> data@[i] == orig[i],
        decreases pixels - p,
    {
        let a = data[4 * p];
        let b = data[4 * p + 2];
        data.set(4 * p, b);
        data.set(4 * p + 2, a);
        proof {
            assert(4 * (p as int) % 4 == 0) by {
                vstd::arithmetic::div_mod::lemma_mod_multiples_basic(p as int, 4);
            }
            assert(swap_src(4 * (p as int)) == 4 * (p as int) + 2);
            assert(swap_src(4 * (p as int) + 2) == 4 * (p as int));
            assert(swap_src(4 * (p as int) + 1) == 4 * (p as int) + 1);
            assert(swap_src(4 * (p as int) + 3) == 4 * (p as int) + 3);
        }
        p += 1;
    }
    proof {
        assert(4 * (pixels as int) == n) by {
            vstd::arithmetic::div_mod::lemma_fundamental_div_mod(n as int, 4);
        }
        assert(data@ =~= swapped(orig));
    }
}

/// Wraps the result of a pixel transfer for `region` into a `PixelBuffer`.
///
/// The region must be valid (positive extent on both axes) and the transfer
/// must have produced exactly `width * height * 4` bytes; each way this can
/// fail maps to its own capture fault.
pub fn grab(region: &CaptureRegion, transfer: Result<Vec<u8>, CaptureFault>) -> (r: Result<
    PixelBuffer,
    CaptureErrorKind,
>)
    ensures
        !region.is_valid() ==> r == Err::<PixelBuffer, CaptureErrorKind>(
            CaptureErrorKind::CaptureError(CaptureFault::EmptyRegion),
        ),
        transfer matches Err(f) ==> (region.is_valid() ==> r == Err::<
            PixelBuffer,
            CaptureErrorKind,
        >(CaptureErrorKind::CaptureError(f))),
        transfer matches Ok(raw) ==> (region.is_valid() && raw@.len() != region.byte_len() ==> r
            == Err::<PixelBuffer, CaptureErrorKind>(
            CaptureErrorKind::CaptureError(CaptureFault::Transfer),
        )),
        transfer matches Ok(raw) ==> (region.is_valid() && raw@.len() == region.byte_len() ==> (
        r matches Ok(pb) && pb.wf() && pb.spec_data() == raw@ && pb.spec_data().len()
            == region.spec_width() * region.spec_height() * 4 && pb.spec_width()
            == region.spec_width() && pb.spec_height() == region.spec_height())),
{
    if !(region.end_x > region.start_x && region.end_y > region.start_y) {
        return Err(CaptureErrorKind::CaptureError(CaptureFault::EmptyRegion));
    }
    let width = region.end_x - region.start_x;
    let height = region.end_y - region.start_y;
    let raw = match transfer {
        Ok(raw) => raw,
        Err(f) => {
            return Err(CaptureErrorKind::CaptureError(f));
        },
    };
    proof {
        assert((width as int) * (height as int) <= 0xffff_ffff * 0xffff_ffff)
            by (nonlinear_arith)
            requires
                width <= 0xffff_ffffu32,
                height <= 0xffff_ffffu32,
        ;
    }
    let expected: u128 = (width as u128) * (height as u128) * 4;
    if (raw.len() as u128) != expected {
        return Err(CaptureErrorKind::CaptureError(CaptureFault::Transfer));
    }
    Ok(PixelBuffer { data: raw, width, height })
}

} // verus!
