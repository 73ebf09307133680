use vstd::prelude::*;
use crate::color::Rgb;

verus! {

/// Where one colour channel sits in a pixel word.
#[derive(PartialEq, Eq, Structural, Clone, Copy, Debug)]
pub struct ChannelLayout {
    pub offset: u32,
    pub length: u32,
}

/// Geometry and pixel layout of a display surface.
#[derive(PartialEq, Eq, Structural, Clone, Copy, Debug)]
pub struct SurfaceFormat {
    pub width: u32,
    pub height: u32,
    pub bits_per_pixel: u32,
    pub red: ChannelLayout,
    pub green: ChannelLayout,
    pub blue: ChannelLayout,
}

/// The surface cannot be painted.
#[derive(PartialEq, Eq, Structural, Clone, Copy, Debug)]
pub enum PackError {
    /// Only 16 and 32 bits per pixel are packed.
    UnsupportedBitsPerPixel(u32),
}

impl ChannelLayout {
    /// At most eight bits wide and placed within a 32-bit word.
    pub open spec fn wf(&self) -> bool {
        self.length <= 8 && self.offset < 32
    }
}

impl SurfaceFormat {
    pub open spec fn wf(&self) -> bool {
        self.red.wf() && self.green.wf() && self.blue.wf()
    }

    pub open spec fn pixel_count(&self) -> nat {
        self.width as nat * self.height as nat
    }
}

/// An 8-bit channel value cut to the channel's depth and moved to its offset.
pub open spec fn channel_bits(v: u8, c: ChannelLayout) -> u32
    recommends
        c.wf(),
{
    ((v as u32) >> ((8 - c.length) as u32)) << c.offset
}

/// The word that one pixel of colour `rgb` holds in `f`.
pub open spec fn pixel_word(rgb: Rgb, f: SurfaceFormat) -> u32 {
    channel_bits(rgb.red, f.red) | channel_bits(rgb.green, f.green) | channel_bits(rgb.blue, f.blue)
}

/// Byte `k` of `w`, counting from the least significant.
pub open spec fn byte_of(w: u32, k: u32) -> u8 {
    ((w >> (8 * k)) & 0xff) as u8
}

/// The little-endian bytes of one pixel: two for 16 bits per pixel, else four.
pub open spec fn pixel_bytes(w: u32, bits_per_pixel: u32) -> Seq<u8> {
    if bits_per_pixel == 16 {
        seq![byte_of(w, 0), byte_of(w, 1)]
    } else {
        seq![byte_of(w, 0), byte_of(w, 1), byte_of(w, 2), byte_of(w, 3)]
    }
}

/// `n` copies of `s`, one after the other.
pub open spec fn repeat(s: Seq<u8>, n: nat) -> Seq<u8>
    decreases n,
{
    if n == 0 {
        Seq::empty()
    } else {
        repeat(s, (n - 1) as nat) + s
    }
}

/// The frame that paints every pixel of `f` with `rgb`.
pub open spec fn frame(rgb: Rgb, f: SurfaceFormat) -> Seq<u8> {
    repeat(pixel_bytes(pixel_word(rgb, f), f.bits_per_pixel), f.pixel_count())
}

pub proof fn lemma_repeat_len(s: Seq<u8>, n: nat)
    ensures
        repeat(s, n).len() == n * s.len(),
    decreases n,
{
    if n > 0 {
        let m = (n - 1) as nat;
        lemma_repeat_len(s, m);
        assert(n * s.len() == m * s.len() + s.len()) by (nonlinear_arith)
            requires
                n == m + 1,
        ;
        assert(repeat(s, n) == repeat(s, m) + s);
    } else {
        assert(n * s.len() == 0) by (nonlinear_arith)
            requires
                n == 0,
        ;
    }
}

proof fn lemma_repeat_index(s: Seq<u8>, n: nat, i: int)
    requires
        s.len() > 0,
        0 <= i < n * s.len(),
    ensures
        repeat(s, n)[i] == s[i % (s.len() as int)],
    decreases n,
{
    if n == 0 {
        assert(n * s.len() == 0) by (nonlinear_arith)
            requires
                n == 0,
        ;
    } else {
        let m = (n - 1) as nat;
        lemma_repeat_len(s, m);
        assert(n * s.len() == m * s.len() + s.len()) by (nonlinear_arith)
            requires
                n == m + 1,
        ;
        assert(repeat(s, n) == repeat(s, m) + s);
        if i < m * s.len() {
            lemma_repeat_index(s, m, i);
        } else {
            let j = i - m * s.len();
            let l = s.len() as int;
            assert(i % l == j) by (nonlinear_arith)
                requires
                    i == m * l + j,
                    0 <= j < l,
            ;
        }
    }
}

/// Every byte of a painted frame is the byte of the one pixel word that its
/// position within its pixel selects, least significant first.
pub proof fn lemma_frame_bytes(rgb: Rgb, f: SurfaceFormat, i: int)
    requires
        f.bits_per_pixel == 16 || f.bits_per_pixel == 32,
        0 <= i < f.pixel_count() * (f.bits_per_pixel / 8) as nat,
    ensures
        frame(rgb, f)[i] == byte_of(pixel_word(rgb, f), (i % (f.bits_per_pixel / 8) as int) as u32),
{
    let px = pixel_bytes(pixel_word(rgb, f), f.bits_per_pixel);
    lemma_repeat_index(px, f.pixel_count(), i);
}

fn channel_value(v: u8, c: ChannelLayout) -> (r: u32)
    requires
        c.wf(),
    ensures
        r == channel_bits(v, c),
{
    ((v as u32) >> (8 - c.length)) << c.offset
}

fn low_byte(w: u32, k: u32) -> (r: u8)
    requires
        k < 4,
    ensures
        r == byte_of(w, k),
{
    let x: u32 = (w >> (8 * k)) & 0xff;
    assert(((w >> (8 * k)) & 0xff) <= 0xff) by (bit_vector);
    x as u8
}

/// The word of one pixel of colour `rgb` in surface format `f`.
pub fn pack_word(rgb: &Rgb, f: &SurfaceFormat) -> (r: u32)
    requires
        f.wf(),
    ensures
        r == pixel_word(*rgb, *f),
{
    channel_value(rgb.red, f.red) | channel_value(rgb.green, f.green) | channel_value(
        rgb.blue,
        f.blue,
    )
}

/// Fills a whole surface with one colour, each pixel word split little-endian
/// into two bytes at 16 bits per pixel and four at 32; other depths are refused.
pub fn pack(rgb: &Rgb, f: &SurfaceFormat) -> (r: Result<Vec<u8>, PackError>)
    requires
        f.wf(),
    ensures
        (f.bits_per_pixel == 16 || f.bits_per_pixel == 32) <==> r is Ok,
        r matches Err(e) ==> e == PackError::UnsupportedBitsPerPixel(f.bits_per_pixel),
        r matches Ok(buf) ==> buf@ == frame(*rgb, *f),
        r matches Ok(buf) ==> buf@.len() == f.pixel_count() * (f.bits_per_pixel / 8) as nat,
{
    if f.bits_per_pixel != 16 && f.bits_per_pixel != 32 {
        return Err(PackError::UnsupportedBitsPerPixel(f.bits_per_pixel));
    }
    let word = pack_word(rgb, f);
    let ghost px = pixel_bytes(word, f.bits_per_pixel);
    proof {
        let (w, h) = (f.width as nat, f.height as nat);
        assert(w * h <= 0xffff_ffff_ffff_ffff) by (nonlinear_arith)
            requires w <= 0xffff_ffff, h <= 0xffff_ffff;
    }
    let n: u64 = f.width as u64 * f.height as u64;
    let mut buf: Vec<u8> = Vec::new();
    let mut i: u64 = 0;
    while i < n
        invariant
            f.bits_per_pixel == 16 || f.bits_per_pixel == 32,
            px == pixel_bytes(word, f.bits_per_pixel),
            n == f.pixel_count(),
            i <= n,
            buf@ == repeat(px, i as nat),
        decreases n - i,
    {
        buf.push(low_byte(word, 0));
        buf.push(low_byte(word, 1));
        if f.bits_per_pixel == 32 {
            buf.push(low_byte(word, 2));
            buf.push(low_byte(word, 3));
        }
        assert(buf@ =~= repeat(px, (i + 1) as nat));
        i = i + 1;
    }
    proof {
        lemma_repeat_len(px, n as nat);
    }
    Ok(buf)
}

} // verus!
