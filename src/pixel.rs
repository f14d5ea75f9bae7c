//! Bit-level decoding of single texels: 5/6-bit channel expansion, 4x4 block
//! compression (colour and interpolated alpha), packed 4-bit-alpha/5-bit-colour
//! values and palette reordering.
use vstd::prelude::*;

verus! {

/// One decoded texel: red, green, blue, alpha.
pub type Texel = (u8, u8, u8, u8);

/// A 5-bit channel widened to 8 bits.
pub open spec fn expand5(c: int) -> int {
    c * 8 + c / 4
}

/// A 6-bit channel widened to 8 bits.
pub open spec fn expand6(c: int) -> int {
    c * 4 + c / 16
}

/// Channel value of palette entry `i` of a colour block whose endpoints have
/// channel values `c0` and `c1`.
pub open spec fn mix(c0: int, c1: int, i: int, four: bool) -> int {
    if i == 0 { c0 }
    else if i == 1 { c1 }
    else if i == 2 { if four { (2 * c0 + c1) / 3 } else { (c0 + c1) / 2 } }
    else { if four { (c0 + 2 * c1) / 3 } else { 0 } }
}

pub open spec fn pow4(j: int) -> int {
    if j == 0 { 1 } else if j == 1 { 4 } else if j == 2 { 16 } else { 64 }
}

pub open spec fn pow8(j: int) -> int {
    if j == 0 { 1 } else if j == 1 { 8 } else if j == 2 { 64 } else if j == 3 { 512 }
    else if j == 4 { 4096 } else if j == 5 { 32768 } else if j == 6 { 262144 } else { 2097152 }
}

/// Texel `k` (row-major within the 4x4 block) of the 8-byte colour block at `off`.
/// `force_four` selects four-colour mode whatever the endpoints' order.
pub open spec fn color_block_texel(raw: Seq<u8>, off: int, k: int, force_four: bool) -> Texel {
    let c0 = raw[off] as int + raw[off + 1] as int * 256;
    let c1 = raw[off + 2] as int + raw[off + 3] as int * 256;
    let four = force_four || c0 > c1;
    let i = (raw[off + 4 + k / 4] as int / pow4(k % 4)) % 4;
    (
        mix(expand5(c0 / 2048), expand5(c1 / 2048), i, four) as u8,
        mix(expand6((c0 / 32) % 64), expand6((c1 / 32) % 64), i, four) as u8,
        mix(expand5(c0 % 32), expand5(c1 % 32), i, four) as u8,
        if !four && i == 3 { 0u8 } else { 255u8 },
    )
}

/// Texel `k` of an 8-byte colour block stored with big-endian endpoints and each
/// row's indices most significant first.
pub open spec fn be_color_block_texel(raw: Seq<u8>, off: int, k: int) -> Texel {
    let c0 = raw[off] as int * 256 + raw[off + 1] as int;
    let c1 = raw[off + 2] as int * 256 + raw[off + 3] as int;
    let four = c0 > c1;
    let i = (raw[off + 4 + k / 4] as int / pow4(3 - k % 4)) % 4;
    (
        mix(expand5(c0 / 2048), expand5(c1 / 2048), i, four) as u8,
        mix(expand6((c0 / 32) % 64), expand6((c1 / 32) % 64), i, four) as u8,
        mix(expand5(c0 % 32), expand5(c1 % 32), i, four) as u8,
        if !four && i == 3 { 0u8 } else { 255u8 },
    )
}

/// Entry `i` of the interpolated alpha palette with endpoints `a0` and `a1`.
pub open spec fn alpha_mix(a0: int, a1: int, i: int) -> int {
    if i == 0 { a0 }
    else if i == 1 { a1 }
    else if a0 > a1 {
        if i == 2 { (6 * a0 + a1) / 7 }
        else if i == 3 { (5 * a0 + 2 * a1) / 7 }
        else if i == 4 { (4 * a0 + 3 * a1) / 7 }
        else if i == 5 { (3 * a0 + 4 * a1) / 7 }
        else if i == 6 { (2 * a0 + 5 * a1) / 7 }
        else { (a0 + 6 * a1) / 7 }
    }
    else if i == 2 { (4 * a0 + a1) / 5 }
    else if i == 3 { (3 * a0 + 2 * a1) / 5 }
    else if i == 4 { (2 * a0 + 3 * a1) / 5 }
    else if i == 5 { (a0 + 4 * a1) / 5 }
    else if i == 6 { 0 }
    else { 255 }
}

/// Alpha of texel `k` of the 8-byte alpha block at `off`.
pub open spec fn alpha_block_texel(raw: Seq<u8>, off: int, k: int) -> u8 {
    let base = if k < 8 { off + 2 } else { off + 5 };
    let bits = raw[base] as int + raw[base + 1] as int * 256 + raw[base + 2] as int * 65536;
    alpha_mix(raw[off] as int, raw[off + 1] as int, (bits / pow8(k % 8)) % 8) as u8
}

/// A 16-bit value with either an opaque 5:5:5 colour (top bit set) or a 3-bit
/// alpha with 4:4:4 colour.
pub open spec fn packed_texel(v: int) -> Texel {
    if v >= 32768 {
        (expand5((v / 1024) % 32) as u8, expand5((v / 32) % 32) as u8, expand5(v % 32) as u8, 255u8)
    } else {
        let a = (v / 4096) % 8;
        (
            (((v / 256) % 16) * 17) as u8,
            (((v / 16) % 16) * 17) as u8,
            ((v % 16) * 17) as u8,
            (a * 32 + a * 4 + a / 2) as u8,
        )
    }
}

/// Position in storage of palette entry `i` of a 256-entry palette: bits 3 and 4
/// of the index trade places.
pub open spec fn clut_slot(i: int) -> int {
    let b3 = (i / 8) % 2;
    let b4 = (i / 16) % 2;
    i - b3 * 8 - b4 * 16 + b3 * 16 + b4 * 8
}

fn mix_exec(c0: u32, c1: u32, i: u32, four: bool) -> (r: u8)
    requires
        c0 <= 255,
        c1 <= 255,
        i < 4,
    ensures
        r as int == mix(c0 as int, c1 as int, i as int, four),
{
    let v: u32 = if i == 0 {
        c0
    } else if i == 1 {
        c1
    } else if i == 2 {
        if four { (2 * c0 + c1) / 3 } else { (c0 + c1) / 2 }
    } else {
        if four { (c0 + 2 * c1) / 3 } else { 0 }
    };
    v as u8
}

fn pow4_exec(j: u32) -> (r: u32)
    requires
        j < 4,
    ensures
        r as int == pow4(j as int),
{
    if j == 0 { 1 } else if j == 1 { 4 } else if j == 2 { 16 } else { 64 }
}

fn pow8_exec(j: u32) -> (r: u32)
    requires
        j < 8,
    ensures
        r as int == pow8(j as int),
{
    if j == 0 { 1 } else if j == 1 { 8 } else if j == 2 { 64 } else if j == 3 { 512 }
    else if j == 4 { 4096 } else if j == 5 { 32768 } else if j == 6 { 262144 } else { 2097152 }
}

/// Decodes texel `k` of the colour block at `off`.
pub fn color_block(raw: &[u8], off: usize, k: usize, force_four: bool) -> (r: Texel)
    requires
        off + 8 <= raw@.len(),
        k < 16,
    ensures
        r == color_block_texel(raw@, off as int, k as int, force_four),
{
    let c0: u32 = raw[off] as u32 + raw[off + 1] as u32 * 256;
    let c1: u32 = raw[off + 2] as u32 + raw[off + 3] as u32 * 256;
    let four = force_four || c0 > c1;
    let i: u32 = (raw[off + 4 + k / 4] as u32 / pow4_exec((k % 4) as u32)) % 4;
    let r0 = (c0 / 2048) * 8 + (c0 / 2048) / 4;
    let r1 = (c1 / 2048) * 8 + (c1 / 2048) / 4;
    let g0 = ((c0 / 32) % 64) * 4 + ((c0 / 32) % 64) / 16;
    let g1 = ((c1 / 32) % 64) * 4 + ((c1 / 32) % 64) / 16;
    let b0 = (c0 % 32) * 8 + (c0 % 32) / 4;
    let b1 = (c1 % 32) * 8 + (c1 % 32) / 4;
    let a: u8 = if !four && i == 3 { 0 } else { 255 };
    (mix_exec(r0, r1, i, four), mix_exec(g0, g1, i, four), mix_exec(b0, b1, i, four), a)
}

/// Decodes texel `k` of a big-endian colour block at `off`.
pub fn be_color_block(raw: &[u8], off: usize, k: usize) -> (r: Texel)
    requires
        off + 8 <= raw@.len(),
        k < 16,
    ensures
        r == be_color_block_texel(raw@, off as int, k as int),
{
    let c0: u32 = raw[off] as u32 * 256 + raw[off + 1] as u32;
    let c1: u32 = raw[off + 2] as u32 * 256 + raw[off + 3] as u32;
    let four = c0 > c1;
    let i: u32 = (raw[off + 4 + k / 4] as u32 / pow4_exec((3 - k % 4) as u32)) % 4;
    let r0 = (c0 / 2048) * 8 + (c0 / 2048) / 4;
    let r1 = (c1 / 2048) * 8 + (c1 / 2048) / 4;
    let g0 = ((c0 / 32) % 64) * 4 + ((c0 / 32) % 64) / 16;
    let g1 = ((c1 / 32) % 64) * 4 + ((c1 / 32) % 64) / 16;
    let b0 = (c0 % 32) * 8 + (c0 % 32) / 4;
    let b1 = (c1 % 32) * 8 + (c1 % 32) / 4;
    let a: u8 = if !four && i == 3 { 0 } else { 255 };
    (mix_exec(r0, r1, i, four), mix_exec(g0, g1, i, four), mix_exec(b0, b1, i, four), a)
}

fn alpha_mix_exec(a0: u32, a1: u32, i: u32) -> (r: u8)
    requires
        a0 <= 255,
        a1 <= 255,
        i < 8,
    ensures
        r as int == alpha_mix(a0 as int, a1 as int, i as int),
{
    let v: u32 = if i == 0 {
        a0
    } else if i == 1 {
        a1
    } else if a0 > a1 {
        if i == 2 { (6 * a0 + a1) / 7 }
        else if i == 3 { (5 * a0 + 2 * a1) / 7 }
        else if i == 4 { (4 * a0 + 3 * a1) / 7 }
        else if i == 5 { (3 * a0 + 4 * a1) / 7 }
        else if i == 6 { (2 * a0 + 5 * a1) / 7 }
        else { (a0 + 6 * a1) / 7 }
    } else if i == 2 {
        (4 * a0 + a1) / 5
    } else if i == 3 {
        (3 * a0 + 2 * a1) / 5
    } else if i == 4 {
        (2 * a0 + 3 * a1) / 5
    } else if i == 5 {
        (a0 + 4 * a1) / 5
    } else if i == 6 {
        0
    } else {
        255
    };
    v as u8
}

/// Decodes the alpha of texel `k` of the alpha block at `off`.
pub fn alpha_block(raw: &[u8], off: usize, k: usize) -> (r: u8)
    requires
        off + 8 <= raw@.len(),
        k < 16,
    ensures
        r == alpha_block_texel(raw@, off as int, k as int),
{
    let a0 = raw[off] as u32;
    let a1 = raw[off + 1] as u32;
    let base = if k < 8 { off + 2 } else { off + 5 };
    let bits: u32 = raw[base] as u32 + raw[base + 1] as u32 * 256 + raw[base + 2] as u32 * 65536;
    let i = (bits / pow8_exec((k % 8) as u32)) % 8;
    alpha_mix_exec(a0, a1, i)
}

/// Decodes one packed 16-bit texel.
pub fn packed(v: u32) -> (r: Texel)
    requires
        v < 65536,
    ensures
        r == packed_texel(v as int),
{
    if v >= 32768 {
        let r5 = (v / 1024) % 32;
        let g5 = (v / 32) % 32;
        let b5 = v % 32;
        ((r5 * 8 + r5 / 4) as u8, (g5 * 8 + g5 / 4) as u8, (b5 * 8 + b5 / 4) as u8, 255)
    } else {
        let a = (v / 4096) % 8;
        ((((v / 256) % 16) * 17) as u8, (((v / 16) % 16) * 17) as u8, ((v % 16) * 17) as u8,
            (a * 32 + a * 4 + a / 2) as u8)
    }
}

/// Storage slot of entry `i` of a 256-entry palette.
pub fn clut(i: usize) -> (r: usize)
    requires
        i < 256,
    ensures
        r as int == clut_slot(i as int),
        r < 256,
{
    let b3 = (i / 8) % 2;
    let b4 = (i / 16) % 2;
    i - b3 * 8 - b4 * 16 + b3 * 16 + b4 * 8
}

} // verus!
