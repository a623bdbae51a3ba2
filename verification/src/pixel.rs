//! The pixel compositor and the frame-buffer model.
//!
//! A frame is one RGBA image for one output, held as 32-bit packed words in
//! row-major order, exactly as they are laid out in the shared-memory region
//! the display server reads. The two fills (a solid color, a resampled
//! source image) write every word of the frame.

use vstd::prelude::*;

verus! {

/// A packed 32-bit pixel word: alpha in the most significant byte, then
/// red, green, blue. On a little-endian wire this serializes as B-G-R-A.
pub open spec fn spec_pack(a: u8, r: u8, g: u8, b: u8) -> u32 {
    ((a as u32) << 24) | ((r as u32) << 16) | ((g as u32) << 8) | (b as u32)
}

/// The word that position `i` of a row-major RGBA sample grid packs to:
/// samples come in R, G, B, A order, the word carries them as A, R, G, B.
pub open spec fn spec_pack_sample(samples: Seq<u8>, i: int) -> u32 {
    spec_pack(samples[4 * i + 3], samples[4 * i], samples[4 * i + 1], samples[4 * i + 2])
}

/// Packs one color sample into the buffer's word layout.
pub fn pack_argb(a: u8, r: u8, g: u8, b: u8) -> (word: u32)
    ensures
        word == spec_pack(a, r, g, b),
{
    ((a as u32) << 24) | ((r as u32) << 16) | ((g as u32) << 8) | (b as u32)
}

/// An RGBA color, one byte per channel.
#[derive(Clone, Copy, Debug, PartialEq, Eq, Structural)]
pub struct Color {
    pub a: u8,
    pub r: u8,
    pub g: u8,
    pub b: u8,
}

impl Color {
    /// The 32-bit word this color packs to.
    pub open spec fn packed(self) -> u32 {
        spec_pack(self.a, self.r, self.g, self.b)
    }

    /// Opaque white, the fill a plain wallpaper defaults to when no color
    /// is given.
    pub fn white() -> (c: Color)
        ensures
            c.packed() == 0xFFFF_FFFFu32,
    {
        let c = Color { a: 0xFF, r: 0xFF, g: 0xFF, b: 0xFF };
        assert((((0xFFu8 as u32) << 24) | ((0xFFu8 as u32) << 16) | ((0xFFu8 as u32) << 8)
            | (0xFFu8 as u32)) == 0xFFFF_FFFFu32) by (bit_vector);
        c
    }
}

/// One frame for one output: `width * height` packed words, row-major,
/// `width * height * 4` bytes once written to shared memory.
pub struct FrameBuffer {
    pub width: u32,
    pub height: u32,
    pub words: Vec<u32>,
}

/// Why a frame could not be allocated.
#[derive(Clone, Copy, Debug, PartialEq, Eq, Structural)]
pub enum AllocError {
    /// The requested area is zero: a zero-sized surface is a programming
    /// error, not a recoverable condition.
    InvalidDimensions,
}

impl FrameBuffer {
    /// The word count matches the dimensions.
    pub open spec fn wf(self) -> bool {
        self.words@.len() == self.width * self.height
    }

    /// The size of the frame in bytes, as the shared-memory pool sees it.
    pub open spec fn byte_len(self) -> int {
        self.words@.len() * 4int
    }
}

/// Allocates a zeroed frame of exactly `width * height` words, that is
/// `width * height * 4` bytes; a zero-area request is rejected.
pub fn allocate(width: u32, height: u32) -> (result: Result<FrameBuffer, AllocError>)
    requires
        4 * (width as int) * (height as int) <= usize::MAX as int,
    ensures
        match result {
            Ok(fb) => {
                &&& width > 0 && height > 0
                &&& fb.width == width && fb.height == height
                &&& fb.wf()
                &&& fb.byte_len() == 4 * width * height
                &&& forall|i: int| 0 <= i < fb.words@.len() ==> fb.words@[i] == 0u32
            },
            Err(AllocError::InvalidDimensions) => width == 0 || height == 0,
        },
{
    if width == 0 || height == 0 {
        return Err(AllocError::InvalidDimensions);
    }
    assert((width as int) * (height as int) <= usize::MAX as int) by (nonlinear_arith)
        requires
            4 * (width as int) * (height as int) <= usize::MAX as int,
    {}
    let count: usize = (width as usize) * (height as usize);
    let mut words: Vec<u32> = Vec::new();
    let mut i: usize = 0;
    while i < count
        invariant
            i <= count,
            words@.len() == i,
            forall|j: int| 0 <= j < i ==> words@[j] == 0u32,
        decreases count - i,
    {
        words.push(0u32);
        i = i + 1;
    }
    assert(words@.len() * 4int == 4 * (width as int) * (height as int)) by (nonlinear_arith)
        requires
            words@.len() == (width as int) * (height as int),
    {}
    Ok(FrameBuffer { width, height, words })
}

/// Writes `color`'s packed word to every pixel of the frame.
pub fn fill_solid(fb: &mut FrameBuffer, color: Color)
    ensures
        final(fb).width == old(fb).width,
        final(fb).height == old(fb).height,
        final(fb).words@.len() == old(fb).words@.len(),
        forall|i: int| 0 <= i < final(fb).words@.len() ==> final(fb).words@[i] == color.packed(),
{
    let word = pack_argb(color.a, color.r, color.g, color.b);
    let count = fb.words.len();
    let mut i: usize = 0;
    while i < count
        invariant
            i <= count,
            count == fb.words@.len(),
            fb.width == old(fb).width,
            fb.height == old(fb).height,
            word == color.packed(),
            forall|j: int| 0 <= j < i ==> fb.words@[j] == word,
        decreases count - i,
    {
        fb.words[i] = word;
        i = i + 1;
    }
}

/// Packs a row-major RGBA sample grid into the frame's words, one 4-byte
/// sample to one word.
pub fn fill_from_samples(fb: &mut FrameBuffer, samples: &Vec<u8>)
    requires
        samples@.len() == 4 * old(fb).words@.len(),
    ensures
        final(fb).width == old(fb).width,
        final(fb).height == old(fb).height,
        final(fb).words@.len() == old(fb).words@.len(),
        forall|i: int| 0 <= i < final(fb).words@.len() ==> final(fb).words@[i]
            == spec_pack_sample(samples@, i),
{
    let count = fb.words.len();
    let slen = samples.len();
    let mut i: usize = 0;
    while i < count
        invariant
            i <= count,
            count == fb.words@.len(),
            fb.width == old(fb).width,
            fb.height == old(fb).height,
            samples@.len() == 4 * count,
            slen == samples@.len(),
            forall|j: int| 0 <= j < i ==> fb.words@[j] == spec_pack_sample(samples@, j),
        decreases count - i,
    {
        let r = samples[4 * i];
        let g = samples[4 * i + 1];
        let b = samples[4 * i + 2];
        let a = samples[4 * i + 3];
        fb.words[i] = pack_argb(a, r, g, b);
        i = i + 1;
    }
}

/// The RGBA sample grid that triangle-filter resampling yields for a given
/// source grid and a given pair of dimensions.
pub uninterp spec fn resample_of(
    src: Seq<u8>,
    src_w: int,
    src_h: int,
    dst_w: int,
    dst_h: int,
) -> Seq<u8>;

/// Relies on image::imageops::resize with the triangle filter: the output
/// grid is a function of the source samples and the dimensions alone, it
/// holds exactly `dst_w * dst_h` RGBA samples, and when the dimensions are
/// unchanged the call hands back a copy of the source grid. The resampler
/// works through a `src_w` by `dst_h` intermediate, so that area is
/// bounded along with the target's.
#[verifier::external_body]
fn resample_rgba(src: &Vec<u8>, src_w: u32, src_h: u32, dst_w: u32, dst_h: u32) -> (out: Vec<u8>)
    requires
        src@.len() == 4 * src_w * src_h,
        4 * (dst_w as int) * (dst_h as int) <= usize::MAX as int,
        4 * (src_w as int) * (dst_h as int) <= usize::MAX as int,
    ensures
        out@ == resample_of(src@, src_w as int, src_h as int, dst_w as int, dst_h as int),
        out@.len() == 4 * dst_w * dst_h,
        src_w == dst_w && src_h == dst_h ==> out@ == src@,
{
    let grid = image::RgbaImage::from_raw(src_w, src_h, src.clone())
        .expect("sample grid matches its dimensions");
    image::imageops::resize(&grid, dst_w, dst_h, image::imageops::FilterType::Triangle).into_raw()
}

/// Resamples a source RGBA grid to the frame's own dimensions and packs the
/// result into the frame's words. The frame's dimensions never change, so a
/// source of any size lands in exactly the requested area; a source that
/// already has the frame's dimensions is packed unchanged.
pub fn fill_image(fb: &mut FrameBuffer, src: &Vec<u8>, src_w: u32, src_h: u32)
    requires
        old(fb).wf(),
        src@.len() == 4 * src_w * src_h,
        4 * (old(fb).width as int) * (old(fb).height as int) <= usize::MAX as int,
        4 * (src_w as int) * (old(fb).height as int) <= usize::MAX as int,
    ensures
        final(fb).width == old(fb).width,
        final(fb).height == old(fb).height,
        final(fb).words@.len() == old(fb).words@.len(),
        forall|i: int| 0 <= i < final(fb).words@.len() ==> final(fb).words@[i]
            == spec_pack_sample(
            resample_of(
                src@,
                src_w as int,
                src_h as int,
                old(fb).width as int,
                old(fb).height as int,
            ),
            i,
        ),
        src_w == old(fb).width && src_h == old(fb).height ==> forall|i: int|
            0 <= i < final(fb).words@.len() ==> final(fb).words@[i] == spec_pack_sample(src@, i),
{
    let samples = resample_rgba(src, src_w, src_h, fb.width, fb.height);
    assert(4 * ((fb.width as int) * (fb.height as int)) == 4 * (fb.width as int) * (
    fb.height as int)) by (nonlinear_arith);
    fill_from_samples(fb, &samples);
}

} // verus!
