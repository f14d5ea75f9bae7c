//! Pixel formats, the codec of each platform family, and decoding of raw pixel
//! data into RGBA8 buffers.
use vstd::prelude::*;
use crate::error::EdbError;
use crate::header::Platform;
use crate::pixel::{
    Texel, be_color_block_texel, be_color_block, color_block_texel, alpha_block_texel, packed_texel, clut_slot, color_block,
    alpha_block, packed, clut,
};

verus! {

/// How the pixels of a texture are stored.
#[derive(Clone, Copy, Debug, PartialEq, Eq, Structural)]
pub enum TextureFormat {
    /// Four bytes per texel: red, green, blue, alpha.
    Rgba8,
    /// 4x4 blocks of eight bytes: two 5:6:5 endpoints and 2-bit indices.
    BlockCompressed4x4,
    /// 4x4 blocks of sixteen bytes: an interpolated alpha block, then a colour block.
    BlockCompressed4x4A,
    /// 4-bit indices, two per byte (low nibble first), then a 16-entry RGBA palette.
    /// The indices are stored unswizzled, in plain row-major texel order.
    Indexed4,
    /// 8-bit indices, then a 256-entry RGBA palette. The indices are stored
    /// unswizzled, in plain row-major texel order; the reordering this format
    /// carries is that of the palette, whose entry `i` lies in slot `clut_slot(i)`
    /// (bits 3 and 4 of the index trade places), and it is undone at lookup.
    Indexed8,
    /// Big-endian 16-bit texels (3-bit alpha with 4:4:4, or opaque 5:5:5) in 4x4 tiles.
    Rgb5A3,
    /// 8x8 tiles, each of four 8-byte colour blocks (left to right, top to bottom)
    /// with big-endian endpoints and most-significant-first indices.
    TiledBlockCompressed4x4,
}

/// Pixel format named by a tag byte.
pub open spec fn format_of_tag(t: u8) -> Option<TextureFormat> {
    if t == 0 { Some(TextureFormat::Rgba8) }
    else if t == 1 { Some(TextureFormat::BlockCompressed4x4) }
    else if t == 2 { Some(TextureFormat::BlockCompressed4x4A) }
    else if t == 3 { Some(TextureFormat::Indexed4) }
    else if t == 4 { Some(TextureFormat::Indexed8) }
    else if t == 5 { Some(TextureFormat::Rgb5A3) }
    else if t == 6 { Some(TextureFormat::TiledBlockCompressed4x4) }
    else { None }
}

pub fn format_from_tag(t: u8) -> (r: Option<TextureFormat>)
    ensures
        r == format_of_tag(t),
{
    match t {
        0 => Some(TextureFormat::Rgba8),
        1 => Some(TextureFormat::BlockCompressed4x4),
        2 => Some(TextureFormat::BlockCompressed4x4A),
        3 => Some(TextureFormat::Indexed4),
        4 => Some(TextureFormat::Indexed8),
        5 => Some(TextureFormat::Rgb5A3),
        6 => Some(TextureFormat::TiledBlockCompressed4x4),
        _ => None,
    }
}

/// The pixel codec of a platform family.
#[derive(Clone, Copy, Debug, PartialEq, Eq, Structural)]
pub enum Codec {
    /// Computers and the first Xbox: plain and block-compressed layouts.
    Pc,
    /// Paletted layouts.
    Ps2,
    /// GameCube and Wii: packed 16-bit tiles and tiled block compression.
    GameCube,
}

pub open spec fn codec_of(p: Platform) -> Option<Codec> {
    match p {
        Platform::Pc | Platform::Xbox => Some(Codec::Pc),
        Platform::Ps2 => Some(Codec::Ps2),
        Platform::GameCube | Platform::Wii => Some(Codec::GameCube),
        _ => None,
    }
}

/// Picks the codec for a platform found in a header.
pub fn create_for_platform(p: Platform) -> (r: Option<Codec>)
    ensures
        r == codec_of(p),
{
    match p {
        Platform::Pc | Platform::Xbox => Some(Codec::Pc),
        Platform::Ps2 => Some(Codec::Ps2),
        Platform::GameCube | Platform::Wii => Some(Codec::GameCube),
        _ => None,
    }
}

/// Number of texels.
pub open spec fn texel_count(w: int, h: int, d: int) -> int {
    w * h * d
}

/// Number of 4x4 blocks, each slice padded to whole blocks.
pub open spec fn block_count(w: int, h: int, d: int) -> int {
    ((w + 3) / 4) * ((h + 3) / 4) * d
}

/// Number of 8x8 tiles, each slice padded to whole tiles.
pub open spec fn tile_count(w: int, h: int, d: int) -> int {
    ((w + 7) / 8) * ((h + 7) / 8) * d
}

/// Bytes of raw data that a texture of this shape and format occupies.
pub open spec fn size_of(f: TextureFormat, w: int, h: int, d: int) -> int {
    match f {
        TextureFormat::Rgba8 => 4 * texel_count(w, h, d),
        TextureFormat::BlockCompressed4x4 => 8 * block_count(w, h, d),
        TextureFormat::BlockCompressed4x4A => 16 * block_count(w, h, d),
        TextureFormat::Indexed4 => (texel_count(w, h, d) + 1) / 2 + 64,
        TextureFormat::Indexed8 => texel_count(w, h, d) + 1024,
        TextureFormat::Rgb5A3 => 32 * block_count(w, h, d),
        TextureFormat::TiledBlockCompressed4x4 => 32 * tile_count(w, h, d),
    }
}

/// Offset of the colour block that holds texel (`x`, `y`) of slice `z`.
pub open spec fn tiled_block_offset(w: int, h: int, x: int, y: int, z: int) -> int {
    let tw = (w + 7) / 8;
    let th = (h + 7) / 8;
    32 * (z * (tw * th) + (y / 8) * tw + x / 8) + 8 * (((y % 8) / 4) * 2 + (x % 8) / 4)
}

/// Texel `p` (slice by slice, row by row) of raw data of the given shape.
pub open spec fn texel(f: TextureFormat, raw: Seq<u8>, w: int, h: int, d: int, p: int) -> Texel {
    let x = p % w;
    let y = (p / w) % h;
    let z = p / (w * h);
    let bw = (w + 3) / 4;
    let bh = (h + 3) / 4;
    let blk = z * (bw * bh) + (y / 4) * bw + x / 4;
    let k = (y % 4) * 4 + x % 4;
    let n = texel_count(w, h, d);
    match f {
        TextureFormat::Rgba8 => (raw[4 * p], raw[4 * p + 1], raw[4 * p + 2], raw[4 * p + 3]),
        TextureFormat::BlockCompressed4x4 => color_block_texel(raw, 8 * blk, k, false),
        TextureFormat::BlockCompressed4x4A => {
            let c = color_block_texel(raw, 16 * blk + 8, k, true);
            (c.0, c.1, c.2, alpha_block_texel(raw, 16 * blk, k))
        },
        TextureFormat::Indexed4 => {
            let byte = raw[p / 2] as int;
            let i = if p % 2 == 0 { byte % 16 } else { byte / 16 };
            let e = (n + 1) / 2 + 4 * i;
            (raw[e], raw[e + 1], raw[e + 2], raw[e + 3])
        },
        TextureFormat::Indexed8 => {
            let e = n + 4 * clut_slot(raw[p] as int);
            (raw[e], raw[e + 1], raw[e + 2], raw[e + 3])
        },
        TextureFormat::Rgb5A3 => {
            let o = 32 * blk + 2 * k;
            packed_texel(raw[o] as int * 256 + raw[o + 1] as int)
        },
        TextureFormat::TiledBlockCompressed4x4 => be_color_block_texel(raw, tiled_block_offset(w, h, x, y, z), k),
    }
}

/// Channel `c` (0 red .. 3 alpha) of a texel.
pub open spec fn channel(t: Texel, c: int) -> u8 {
    if c == 0 { t.0 } else if c == 1 { t.1 } else if c == 2 { t.2 } else { t.3 }
}

/// The RGBA8 buffer that raw data decodes to: four bytes per texel, in texel order.
pub open spec fn decoded(f: TextureFormat, raw: Seq<u8>, w: int, h: int, d: int) -> Seq<u8> {
    Seq::new((4 * texel_count(w, h, d)) as nat, |j: int| channel(texel(f, raw, w, h, d, j / 4), j % 4))
}

impl Codec {
    /// Formats this codec decodes.
    pub open spec fn supports(self, f: TextureFormat) -> bool {
        match self {
            Codec::Pc => f == TextureFormat::Rgba8 || f == TextureFormat::BlockCompressed4x4
                || f == TextureFormat::BlockCompressed4x4A,
            Codec::Ps2 => f == TextureFormat::Rgba8 || f == TextureFormat::Indexed4
                || f == TextureFormat::Indexed8,
            Codec::GameCube => f == TextureFormat::Rgba8 || f == TextureFormat::Rgb5A3
                || f == TextureFormat::TiledBlockCompressed4x4,
        }
    }

    pub fn supports_format(&self, f: TextureFormat) -> (r: bool)
        ensures
            r == self.supports(f),
    {
        match self {
            Codec::Pc => matches!(f, TextureFormat::Rgba8 | TextureFormat::BlockCompressed4x4
                | TextureFormat::BlockCompressed4x4A),
            Codec::Ps2 => matches!(f, TextureFormat::Rgba8 | TextureFormat::Indexed4
                | TextureFormat::Indexed8),
            Codec::GameCube => matches!(f, TextureFormat::Rgba8 | TextureFormat::Rgb5A3
                | TextureFormat::TiledBlockCompressed4x4),
        }
    }

    /// Bytes of raw data that a texture of this shape and format occupies.
    pub fn get_data_size(&self, w: u16, h: u16, d: u16, f: TextureFormat) -> (r: Result<u64, EdbError>)
        ensures
            r is Err <==> !self.supports(f),
            r is Err ==> r == Err::<u64, EdbError>(EdbError::UnsupportedTextureFormat),
            r matches Ok(s) ==> s as int == size_of(f, w as int, h as int, d as int),
    {
        if !self.supports_format(f) {
            return Err(EdbError::UnsupportedTextureFormat);
        }
        Ok(raw_size(w, h, d, f))
    }
}

/// Bytes of raw data that a texture of this shape and format occupies.
pub fn raw_size(w: u16, h: u16, d: u16, f: TextureFormat) -> (r: u64)
    ensures
        r as int == size_of(f, w as int, h as int, d as int),
{
    let (w, h, d) = (w as u64, h as u64, d as u64);
    proof {
        assert(w * h <= 65535 * 65535) by (nonlinear_arith) requires w <= 65535, h <= 65535;
        assert(w * h * d <= 65535 * 65535 * 65535) by (nonlinear_arith)
            requires w * h <= 65535 * 65535, d <= 65535;
        assert(((w + 3) / 4) * ((h + 3) / 4) <= 16384 * 16384) by (nonlinear_arith)
            requires w <= 65535, h <= 65535;
        assert(((w + 3) / 4) * ((h + 3) / 4) * d <= 16384 * 16384 * 65535) by (nonlinear_arith)
            requires ((w + 3) / 4) * ((h + 3) / 4) <= 16384 * 16384, d <= 65535;
        assert(((w + 7) / 8) * ((h + 7) / 8) <= 8192 * 8192) by (nonlinear_arith)
            requires w <= 65535, h <= 65535;
        assert(((w + 7) / 8) * ((h + 7) / 8) * d <= 8192 * 8192 * 65535) by (nonlinear_arith)
            requires ((w + 7) / 8) * ((h + 7) / 8) <= 8192 * 8192, d <= 65535;
    }
    let n = w * h * d;
    let blocks = ((w + 3) / 4) * ((h + 3) / 4) * d;
    let tiles = ((w + 7) / 8) * ((h + 7) / 8) * d;
    match f {
        TextureFormat::Rgba8 => 4 * n,
        TextureFormat::BlockCompressed4x4 => 8 * blocks,
        TextureFormat::BlockCompressed4x4A => 16 * blocks,
        TextureFormat::Indexed4 => (n + 1) / 2 + 64,
        TextureFormat::Indexed8 => n + 1024,
        TextureFormat::Rgb5A3 => 32 * blocks,
        TextureFormat::TiledBlockCompressed4x4 => 32 * tiles,
    }
}

/// Where texel `p` of a shape lies: its coordinates, and a 4x4 block inside the
/// slice-padded block grid.
proof fn lemma_coords(p: int, w: int, h: int, d: int)
    requires
        0 <= p < w * h * d,
        w > 0,
        h > 0,
        d > 0,
    ensures
        0 <= p % w < w,
        0 <= (p / w) % h < h,
        0 <= p / (w * h) < d,
        w * h > 0,
        w * h <= w * h * d,
        0 <= (p / (w * h)) * (((w + 3) / 4) * ((h + 3) / 4)) + (((p / w) % h) / 4) * ((w + 3) / 4) + (p % w) / 4,
        (p / (w * h)) * (((w + 3) / 4) * ((h + 3) / 4)) + (((p / w) % h) / 4) * ((w + 3) / 4) + (p % w) / 4
            < ((w + 3) / 4) * ((h + 3) / 4) * d,
{
    assert(w * h > 0) by (nonlinear_arith) requires w > 0, h > 0;
    assert(w * h <= w * h * d) by (nonlinear_arith) requires w * h > 0, d > 0;
    let wh = w * h;
    assert(p / wh < d) by (nonlinear_arith) requires 0 <= p < wh * d, wh > 0;
    assert(p / wh >= 0) by (nonlinear_arith) requires 0 <= p, wh > 0;
    let bw = (w + 3) / 4;
    let bh = (h + 3) / 4;
    let a = (p % w) / 4;
    let b = ((p / w) % h) / 4;
    let z = p / wh;
    assert(0 <= a < bw);
    assert(0 <= b < bh);
    assert(0 <= z * (bw * bh) + b * bw + a < bw * bh * d) by (nonlinear_arith)
        requires 0 <= a < bw, 0 <= b < bh, 0 <= z < d;
}

/// The colour block of texel (`x`, `y`, `z`) lies inside the tiled data.
proof fn lemma_tiled_block(w: int, h: int, d: int, x: int, y: int, z: int)
    requires
        0 <= x < w,
        0 <= y < h,
        0 <= z < d,
    ensures
        0 <= tiled_block_offset(w, h, x, y, z),
        tiled_block_offset(w, h, x, y, z) + 8 <= 32 * tile_count(w, h, d),
{
    let tw = (w + 7) / 8;
    let th = (h + 7) / 8;
    let a = x / 8;
    let b = y / 8;
    assert(0 <= a < tw);
    assert(0 <= b < th);
    assert(0 <= z * (tw * th) + b * tw + a < tw * th * d) by (nonlinear_arith)
        requires 0 <= a < tw, 0 <= b < th, 0 <= z < d;
}

/// Decodes texel `p` of raw data that holds at least the format's size.
fn texel_at(f: TextureFormat, raw: &[u8], w: usize, h: usize, d: usize, p: usize) -> (r: Texel)
    requires
        0 <= p < w * h * d,
        raw@.len() >= size_of(f, w as int, h as int, d as int),
        4 * (w * h * d) <= usize::MAX,
        w <= 65535,
        h <= 65535,
    ensures
        r == texel(f, raw@, w as int, h as int, d as int, p as int),
{
    proof {
        assert(w > 0 && h > 0 && d > 0) by (nonlinear_arith)
            requires 0 <= p < w * h * d, w >= 0, h >= 0, d >= 0;
        lemma_coords(p as int, w as int, h as int, d as int);
    }
    let wh = w * h;
    let x = p % w;
    let y = (p / w) % h;
    let z = p / wh;
    let bw = (w + 3) / 4;
    let bh = (h + 3) / 4;
    proof {
        assert(bw * bh * d <= w * h * d) by (nonlinear_arith)
            requires bw <= w, bh <= h, bw >= 0, bh >= 0, d > 0;
        assert(bw * bh <= bw * bh * d) by (nonlinear_arith) requires d > 0, bw >= 0, bh >= 0;
        assert(z * (bw * bh) <= z * (bw * bh) + (y / 4) * bw) by (nonlinear_arith) requires y >= 0, bw >= 0;
        assert((y / 4) * bw <= z * (bw * bh) + (y / 4) * bw) by (nonlinear_arith) requires z >= 0, bw >= 0, bh >= 0;
    }
    let blk = z * (bw * bh) + (y / 4) * bw + x / 4;
    let k = (y % 4) * 4 + x % 4;
    let n = wh * d;
    let len = raw.len();
    assert(size_of(f, w as int, h as int, d as int) <= len);
    match f {
        TextureFormat::Rgba8 => (raw[4 * p], raw[4 * p + 1], raw[4 * p + 2], raw[4 * p + 3]),
        TextureFormat::BlockCompressed4x4 => color_block(raw, 8 * blk, k, false),
        TextureFormat::BlockCompressed4x4A => {
            let c = color_block(raw, 16 * blk + 8, k, true);
            (c.0, c.1, c.2, alpha_block(raw, 16 * blk, k))
        },
        TextureFormat::Indexed4 => {
            let byte = raw[p / 2] as usize;
            let i = if p % 2 == 0 { byte % 16 } else { byte / 16 };
            let e = (n + 1) / 2 + 4 * i;
            (raw[e], raw[e + 1], raw[e + 2], raw[e + 3])
        },
        TextureFormat::Indexed8 => {
            let e = n + 4 * clut(raw[p] as usize);
            (raw[e], raw[e + 1], raw[e + 2], raw[e + 3])
        },
        TextureFormat::Rgb5A3 => {
            let o = 32 * blk + 2 * k;
            packed(raw[o] as u32 * 256 + raw[o + 1] as u32)
        },
        TextureFormat::TiledBlockCompressed4x4 => {
            proof {
                lemma_tiled_block(w as int, h as int, d as int, x as int, y as int, z as int);
            }
            let tw = (w + 7) / 8;
            let th = (h + 7) / 8;
            proof {
                assert(tw * th * d <= w * h * d) by (nonlinear_arith)
                    requires tw <= w, th <= h, tw >= 0, th >= 0, d > 0;
                assert(tw * th <= tw * th * d) by (nonlinear_arith) requires d > 0, tw >= 0, th >= 0;
                assert(z * (tw * th) <= z * (tw * th) + (y / 8) * tw) by (nonlinear_arith) requires y >= 0, tw >= 0;
                assert((y / 8) * tw <= z * (tw * th) + (y / 8) * tw) by (nonlinear_arith)
                    requires z >= 0, tw >= 0, th >= 0;
            }
            let o = 32 * (z * (tw * th) + (y / 8) * tw + x / 8) + 8 * (((y % 8) / 4) * 2 + (x % 8) / 4);
            be_color_block(raw, o, k)
        },
    }
}

impl Codec {
    /// Decodes raw pixel data into an RGBA8 buffer of exactly `w * h * d * 4` bytes.
    /// Fails with `UnsupportedTextureFormat` when this codec lacks the format, and
    /// with `DecodeError` when `raw` is shorter than the format's size.
    pub fn decode(&self, raw: &[u8], w: u16, h: u16, d: u16, f: TextureFormat) -> (r: Result<Vec<u8>, EdbError>)
        requires
            4 * (w * h * d) <= usize::MAX,
        ensures
            !self.supports(f) ==> r == Err::<Vec<u8>, EdbError>(EdbError::UnsupportedTextureFormat),
            self.supports(f) && raw@.len() < size_of(f, w as int, h as int, d as int)
                ==> r == Err::<Vec<u8>, EdbError>(EdbError::DecodeError),
            self.supports(f) && raw@.len() >= size_of(f, w as int, h as int, d as int) ==> r is Ok,
            r matches Ok(v) ==> v@ == decoded(f, raw@, w as int, h as int, d as int)
                && v@.len() == 4 * (w as int * h as int * d as int),
    {
        let size = match self.get_data_size(w, h, d, f) {
            Ok(s) => s,
            Err(e) => return Err(e),
        };
        if (raw.len() as u64) < size {
            return Err(EdbError::DecodeError);
        }
        proof {
            assert(w * h <= 65535 * 65535) by (nonlinear_arith) requires w <= 65535, h <= 65535;
            assert(w * h * d <= 65535 * 65535 * 65535) by (nonlinear_arith)
                requires w * h <= 65535 * 65535, d <= 65535;
        }
        let n64 = w as u64 * h as u64 * d as u64;
        let n = n64 as usize;
        let (w, h, d) = (w as usize, h as usize, d as usize);
        let mut out: Vec<u8> = Vec::new();
        let mut p: usize = 0;
        while p < n
            invariant
                n == w * h * d,
                w <= 65535,
                h <= 65535,
                4 * n <= usize::MAX,
                raw@.len() >= size_of(f, w as int, h as int, d as int),
                p <= n,
                out@ == Seq::new((4 * p) as nat, |j: int| channel(texel(f, raw@, w as int, h as int, d as int, j / 4), j % 4)),
            decreases n - p,
        {
            let t = texel_at(f, raw, w, h, d, p);
            let ghost prev = out@;
            out.push(t.0);
            out.push(t.1);
            out.push(t.2);
            out.push(t.3);
            proof {
                assert(out@ =~= Seq::new((4 * (p + 1)) as nat, |j: int| channel(texel(f, raw@, w as int, h as int, d as int, j / 4), j % 4)));
            }
            p = p + 1;
        }
        proof {
            assert(out@ =~= decoded(f, raw@, w as int, h as int, d as int));
        }
        Ok(out)
    }
}

} // verus!
