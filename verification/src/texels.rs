//! Framebuffer unpacking for the rendering backend.
//!
//! The machine's framebuffer packs 8 pixels per byte, least significant bit
//! first. The rendering backend wants one luminance byte per pixel: `0xFF`
//! for a lit pixel, `0x00` for a dark one.

use vstd::prelude::*;

verus! {

/// The luminance byte of pixel `bit` (0 to 7, least significant first) of
/// one packed framebuffer byte.
pub open spec fn texel(byte: u8, bit: int) -> u8 {
    if byte & (1u8 << bit) != 0 {
        0xFF
    } else {
        0x00
    }
}

/// Unpacks one framebuffer byte into its 8 luminance bytes, least
/// significant bit first.
pub fn byte_to_texels(byte: u8) -> (r: [u8; 8])
    ensures
        forall|bit: int| 0 <= bit < 8 ==> r@[bit] == texel(byte, bit),
{
    proof {
        assert(1u8 << 0 == 0x01u8 && 1u8 << 1 == 0x02u8 && 1u8 << 2 == 0x04u8
            && 1u8 << 3 == 0x08u8 && 1u8 << 4 == 0x10u8 && 1u8 << 5 == 0x20u8
            && 1u8 << 6 == 0x40u8 && 1u8 << 7 == 0x80u8) by (bit_vector);
    }
    [
        if byte & 0x01 != 0 { 0xFF } else { 0x00 },
        if byte & 0x02 != 0 { 0xFF } else { 0x00 },
        if byte & 0x04 != 0 { 0xFF } else { 0x00 },
        if byte & 0x08 != 0 { 0xFF } else { 0x00 },
        if byte & 0x10 != 0 { 0xFF } else { 0x00 },
        if byte & 0x20 != 0 { 0xFF } else { 0x00 },
        if byte & 0x40 != 0 { 0xFF } else { 0x00 },
        if byte & 0x80 != 0 { 0xFF } else { 0x00 },
    ]
}

/// Unpacks a packed framebuffer snapshot into one luminance byte per
/// pixel: byte `i` of the input yields output bytes `8 * i` to
/// `8 * i + 7`, least significant bit first.
pub fn framebuffer_to_texels(framebuffer: &[u8]) -> (r: Vec<u8>)
    ensures
        r@.len() == framebuffer@.len() * 8,
        forall|i: int, bit: int| 0 <= i < framebuffer@.len() && 0 <= bit < 8
            ==> r@[i * 8 + bit] == texel(framebuffer@[i], bit),
{
    let mut r: Vec<u8> = Vec::new();
    let mut i: usize = 0;
    while i < framebuffer.len()
        invariant
            i <= framebuffer@.len(),
            r@.len() == i * 8,
            forall|j: int, bit: int| 0 <= j < i && 0 <= bit < 8
                ==> r@[j * 8 + bit] == texel(framebuffer@[j], bit),
        decreases framebuffer@.len() - i,
    {
        let texels = byte_to_texels(framebuffer[i]);
        let mut bit: usize = 0;
        while bit < 8
            invariant
                bit <= 8,
                r@.len() == i * 8 + bit,
                forall|j: int, b: int| 0 <= j < i && 0 <= b < 8
                    ==> r@[j * 8 + b] == texel(framebuffer@[j as int], b),
                forall|b: int| 0 <= b < bit ==> r@[i * 8 + b] == texel(framebuffer@[i as int], b),
                forall|b: int| 0 <= b < 8 ==> texels@[b] == texel(framebuffer@[i as int], b),
                i < framebuffer@.len(),
            decreases 8 - bit,
        {
            r.push(texels[bit]);
            bit = bit + 1;
        }
        i = i + 1;
    }
    r
}

} // verus!
