use image::ImageEncoder;
use rayon::iter::{IntoParallelRefIterator, ParallelIterator};
use vstd::prelude::*;

verus! {

/// Smallest sample of `s`, or 0 when `s` is empty.
pub open spec fn seq_min(s: Seq<i16>) -> int
    decreases s.len(),
{
    if s.len() == 0 {
        0
    } else if s.len() == 1 {
        s[0] as int
    } else {
        let m = seq_min(s.drop_last());
        if (s.last() as int) < m { s.last() as int } else { m }
    }
}

/// Largest sample of `s`, or 0 when `s` is empty.
pub open spec fn seq_max(s: Seq<i16>) -> int
    decreases s.len(),
{
    if s.len() == 0 {
        0
    } else if s.len() == 1 {
        s[0] as int
    } else {
        let m = seq_max(s.drop_last());
        if (s.last() as int) > m { s.last() as int } else { m }
    }
}

/// `v` rescaled linearly from `[lo, hi]` to `[0, 255]`, rounded to the nearest
/// integer with halves rounded up (away from zero, as every value is non-negative);
/// 0 when the range is flat.
pub open spec fn scale(v: int, lo: int, hi: int) -> int {
    if hi == lo {
        0
    } else {
        (2 * 255 * (v - lo) + (hi - lo)) / (2 * (hi - lo))
    }
}

/// The grayscale raster of a sample sequence: each sample rescaled against the
/// global minimum and maximum of the whole sequence.
pub open spec fn normalized(s: Seq<i16>) -> Seq<u8> {
    Seq::new(s.len(), |i: int| scale(s[i] as int, seq_min(s), seq_max(s)) as u8)
}

/// Every sample lies between the minimum and the maximum.
pub proof fn lemma_min_max_bound(s: Seq<i16>)
    ensures
        forall|i: int| 0 <= i < s.len() ==> seq_min(s) <= #[trigger] s[i] as int <= seq_max(s),
    decreases s.len(),
{
    if s.len() > 1 {
        lemma_min_max_bound(s.drop_last());
        assert forall|i: int| 0 <= i < s.len() implies seq_min(s) <= #[trigger] s[i] as int
            <= seq_max(s) by {
            if i < s.len() - 1 {
                assert(s.drop_last()[i] == s[i]);
            }
        }
    }
}

/// The minimum and the maximum are themselves samples of a non-empty sequence.
pub proof fn lemma_min_max_attained(s: Seq<i16>)
    requires
        s.len() > 0,
    ensures
        exists|i: int| 0 <= i < s.len() && s[i] as int == seq_min(s),
        exists|j: int| 0 <= j < s.len() && s[j] as int == seq_max(s),
    decreases s.len(),
{
    if s.len() == 1 {
        assert(s[0] as int == seq_min(s));
        assert(s[0] as int == seq_max(s));
    } else {
        let t = s.drop_last();
        lemma_min_max_attained(t);
        let i = choose|i: int| 0 <= i < t.len() && t[i] as int == seq_min(t);
        let j = choose|j: int| 0 <= j < t.len() && t[j] as int == seq_max(t);
        assert(t[i] == s[i] && t[j] == s[j]);
        if (s.last() as int) < seq_min(t) {
            assert(s[s.len() - 1] as int == seq_min(s));
        } else {
            assert(s[i] as int == seq_min(s));
        }
        if (s.last() as int) > seq_max(t) {
            assert(s[s.len() - 1] as int == seq_max(s));
        } else {
            assert(s[j] as int == seq_max(s));
        }
    }
}

proof fn lemma_scale_range(v: int, lo: int, hi: int)
    requires
        lo <= v <= hi,
    ensures
        0 <= scale(v, lo, hi) <= 255,
{
    if hi != lo {
        let d = hi - lo;
        assert(0 <= 2 * 255 * (v - lo) + d) by (nonlinear_arith)
            requires lo <= v, d > 0;
        assert((2 * 255 * (v - lo) + d) / (2 * d) <= 255) by (nonlinear_arith)
            requires v - lo <= d, d > 0;
        assert(0 <= (2 * 255 * (v - lo) + d) / (2 * d)) by (nonlinear_arith)
            requires 0 <= 2 * 255 * (v - lo) + d, d > 0;
    }
}


/// Why a grid could not be turned into a raster.
#[derive(Debug, PartialEq, Eq)]
pub enum EncodeError {
    /// The declared `width * height` differs from the number of samples.
    DimensionMismatch { width: u32, height: u32, samples: usize },
    /// The raster container encoder refused the image, with its message.
    Container(String),
}

/// An 8-bit grayscale raster stored row by row, origin at the top left.
#[derive(Debug)]
pub struct RasterImage {
    pub width: u32,
    pub height: u32,
    pub pixels: Vec<u8>,
}

impl RasterImage {
    /// The pixel count agrees with the dimensions.
    pub open spec fn wf(&self) -> bool {
        self.pixels@.len() == self.width as int * self.height as int
    }

    /// The pixel at column `x` of row `y`: the sample at linear index `y * width + x`.
    pub fn pixel(&self, x: u32, y: u32) -> (r: u8)
        requires
            self.wf(),
            x < self.width,
            y < self.height,
        ensures
            r == self.pixels@[y as int * self.width as int + x as int],
    {
        proof {
            assert(0 <= (y as int) * (self.width as int) + (x as int) && (y as int) * (self.width as int)
                + (x as int) < (self.width as int) * (self.height as int)) by (nonlinear_arith)
                requires x < self.width, y < self.height;
            assert((y as int) * (self.width as int) <= (y as int) * (self.width as int) + (x as int));
        }
        let n = self.pixels.len();
        proof {
            assert((y as int) * (self.width as int) + (x as int) < n);
        }
        let idx: usize = y as usize * self.width as usize + x as usize;
        self.pixels[idx]
    }
}

/// The smallest and the largest sample, both 0 for an empty sequence.
pub fn sample_range(samples: &Vec<i16>) -> (r: (i16, i16))
    ensures
        r.0 as int == seq_min(samples@),
        r.1 as int == seq_max(samples@),
{
    if samples.len() == 0 {
        return (0, 0);
    }
    let mut lo: i16 = samples[0];
    let mut hi: i16 = samples[0];
    let mut i: usize = 1;
    while i < samples.len()
        invariant
            1 <= i <= samples@.len(),
            lo as int == seq_min(samples@.subrange(0, i as int)),
            hi as int == seq_max(samples@.subrange(0, i as int)),
        decreases samples@.len() - i,
    {
        let v = samples[i];
        proof {
            let next = samples@.subrange(0, i as int + 1);
            assert(next.drop_last() =~= samples@.subrange(0, i as int));
            assert(next.last() == v);
        }
        if v < lo {
            lo = v;
        }
        if v > hi {
            hi = v;
        }
        i = i + 1;
    }
    assert(samples@.subrange(0, samples@.len() as int) =~= samples@);
    (lo, hi)
}

/// One sample rescaled against the range `[lo, hi]`.
pub fn scale_sample(v: i16, lo: i16, hi: i16) -> (r: u8)
    requires
        lo <= v <= hi,
    ensures
        r as int == scale(v as int, lo as int, hi as int),
{
    proof {
        lemma_scale_range(v as int, lo as int, hi as int);
    }
    if hi == lo {
        0
    } else {
        let off: u32 = (v as i32 - lo as i32) as u32;
        let d: u32 = (hi as i32 - lo as i32) as u32;
        proof {
            assert(2 * 255 * off + d <= 2 * 255 * 65535 + 65535) by (nonlinear_arith)
                requires off <= 65535, d <= 65535;
        }
        ((2 * 255 * off + d) / (2 * d)) as u8
    }
}

/// Relies on rayon's `par_iter().map(..).collect()` over a slice: each sample is
/// mapped by `scale_sample` on some worker, and collecting into a `Vec` keeps the
/// order of the slice.
#[verifier::external_body]
fn par_scale(samples: &Vec<i16>, lo: i16, hi: i16) -> (r: Vec<u8>)
    requires
        forall|k: int| 0 <= k < samples@.len() ==> lo <= #[trigger] samples@[k] <= hi,
    ensures
        r@.len() == samples@.len(),
        forall|k: int|
            0 <= k < samples@.len() ==> #[trigger] r@[k] as int == scale(
                samples@[k] as int,
                lo as int,
                hi as int,
            ),
{
    samples.par_iter().map(|&v| scale_sample(v, lo, hi)).collect()
}

/// Turns a grid of `width * height` signed samples, stored row by row, into an
/// 8-bit raster by rescaling every sample linearly from the global `[min, max]`
/// range to `[0, 255]` (rounding halves up; all zero when `min == max`).
/// Fails, and never reshapes, when the sample count differs from `width * height`.
pub fn encode(width: u32, height: u32, samples: &Vec<i16>) -> (r: Result<RasterImage, EncodeError>)
    ensures
        samples@.len() == width as int * height as int <==> r is Ok,
        r matches Err(e) ==> e == (EncodeError::DimensionMismatch {
            width,
            height,
            samples: samples@.len() as usize,
        }),
        r matches Ok(img) ==> img.wf() && img.width == width && img.height == height
            && img.pixels@ == normalized(samples@),
{
    proof {
        assert((width as int) * (height as int) <= 0xffff_ffff * 0xffff_ffff) by (nonlinear_arith)
            requires width <= 0xffff_ffffu32, height <= 0xffff_ffffu32;
    }
    if width as u64 * height as u64 != samples.len() as u64 {
        return Err(EncodeError::DimensionMismatch { width, height, samples: samples.len() });
    }
    let (lo, hi) = sample_range(samples);
    proof {
        lemma_min_max_bound(samples@);
    }
    let pixels = par_scale(samples, lo, hi);
    assert(pixels@ =~= normalized(samples@));
    Ok(RasterImage { width, height, pixels })
}


/// When the samples are not all equal, every sample equal to the global minimum
/// becomes 0 and every sample equal to the global maximum becomes 255; both occur.
pub proof fn lemma_extremes_reach_full_range(s: Seq<i16>)
    requires
        seq_max(s) > seq_min(s),
    ensures
        forall|i: int|
            0 <= i < s.len() && s[i] as int == seq_min(s) ==> #[trigger] normalized(s)[i] == 0,
        forall|i: int|
            0 <= i < s.len() && s[i] as int == seq_max(s) ==> #[trigger] normalized(s)[i] == 255,
        exists|i: int| 0 <= i < s.len() && #[trigger] normalized(s)[i] == 0,
        exists|j: int| 0 <= j < s.len() && #[trigger] normalized(s)[j] == 255,
{
    lemma_min_max_attained(s);
    let lo = seq_min(s);
    let hi = seq_max(s);
    let d = hi - lo;
    assert((2 * 255 * (hi - lo) + d) / (2 * d) == 255) by (nonlinear_arith)
        requires d == hi - lo, d > 0;
    assert((2 * 255 * (lo - lo) + d) / (2 * d) == 0) by (nonlinear_arith)
        requires d > 0;
    let i = choose|i: int| 0 <= i < s.len() && s[i] as int == seq_min(s);
    let j = choose|j: int| 0 <= j < s.len() && s[j] as int == seq_max(s);
    assert(normalized(s)[i] == 0);
    assert(normalized(s)[j] == 255);
}

/// When every sample is equal (one sample included), every encoded sample is 0.
pub proof fn lemma_flat_grid_is_black(s: Seq<i16>)
    requires
        seq_max(s) == seq_min(s),
    ensures
        forall|i: int| 0 <= i < s.len() ==> #[trigger] normalized(s)[i] == 0,
{
}

/// The PNG file that the `image` crate's encoder writes for an 8-bit grayscale
/// raster of the given dimensions and row-major pixels.
pub uninterp spec fn png_gray_of(width: u32, height: u32, pixels: Seq<u8>) -> Seq<u8>;

/// Relies on `image::codecs::png::PngEncoder::write_image` with `ExtendedColorType::L8`:
/// on success the buffer holds the encoded file, which depends on its arguments alone.
/// Writing into a `Vec` cannot fail, and for this colour type a zero width or
/// height is the encoder's only refusal.
/// It panics when the buffer length differs from `width * height`, hence the `requires`.
#[verifier::external_body]
fn png_encode_gray(width: u32, height: u32, pixels: &Vec<u8>) -> (r: Result<Vec<u8>, String>)
    requires
        pixels@.len() == width as int * height as int,
    ensures
        r matches Ok(b) ==> b@ == png_gray_of(width, height, pixels@),
        width > 0 && height > 0 ==> r is Ok,
{
    let mut out: Vec<u8> = Vec::new();
    let enc = image::codecs::png::PngEncoder::new(&mut out);
    match enc.write_image(pixels, width, height, image::ExtendedColorType::L8) {
        Ok(()) => Ok(out),
        Err(e) => Err(e.to_string()),
    }
}

impl RasterImage {
    /// The raster as a PNG file; an error carries the encoder's message.
    pub fn to_png(&self) -> (r: Result<Vec<u8>, EncodeError>)
        requires
            self.wf(),
        ensures
            r matches Ok(b) ==> b@ == png_gray_of(self.width, self.height, self.pixels@),
            r matches Err(e) ==> e is Container,
            self.width > 0 && self.height > 0 ==> r is Ok,
    {
        match png_encode_gray(self.width, self.height, &self.pixels) {
            Ok(b) => Ok(b),
            Err(m) => Err(EncodeError::Container(m)),
        }
    }
}

} // verus!
