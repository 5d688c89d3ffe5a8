use vstd::prelude::*;
use crate::types::{
    channel_of, PixelBenderError, PixelBenderReg, PixelBenderRegChannel, PixelBenderRegKind,
    RegModel,
};

verus! {

/// Bit 0x8000 of a register word marks an int register.
pub open spec fn kind_of(word: u32) -> PixelBenderRegKind {
    if word & 0x8000u32 != 0 {
        PixelBenderRegKind::Int
    } else {
        PixelBenderRegKind::Float
    }
}

/// The channels whose bits (R 0x8, G 0x4, B 0x2, A 0x1) are set in a write mask, in R, G, B, A
/// order.
pub open spec fn mask_channels(mask: u8) -> Seq<PixelBenderRegChannel> {
    (if mask & 0x8u8 != 0 { seq![PixelBenderRegChannel::R] } else { seq![] }) + (if mask & 0x4u8
        != 0 {
        seq![PixelBenderRegChannel::G]
    } else {
        seq![]
    }) + (if mask & 0x2u8 != 0 { seq![PixelBenderRegChannel::B] } else { seq![] }) + (if mask
        & 0x1u8 != 0 {
        seq![PixelBenderRegChannel::A]
    } else {
        seq![]
    })
}

/// The 2-bit swizzle code of the `i`-th source channel, taken from the high half of the word.
pub open spec fn swizzle_code(word: u32, i: int) -> u32 {
    ((word >> 16u32) >> ((6 - 2 * i) as u32)) & 3u32
}

/// The destination register that a 16-bit word and a write mask describe.
pub open spec fn dst_reg(word: u16, mask: u8) -> RegModel {
    RegModel {
        index: (word & 0x7FFFu16) as u32,
        channels: mask_channels(mask),
        kind: kind_of(word as u32),
    }
}

/// The source register that a word with a swizzle in its high half describes, with `size`
/// channels.
pub open spec fn src_reg(word: u32, size: u8) -> RegModel {
    RegModel {
        index: word & 0x7FFFu32,
        channels: Seq::new(size as nat, |i: int| channel_of(swizzle_code(word, i))),
        kind: kind_of(word),
    }
}

fn channel_from_code(code: u32) -> (r: PixelBenderRegChannel)
    ensures
        r == channel_of(code),
{
    if code == 0 {
        PixelBenderRegChannel::R
    } else if code == 1 {
        PixelBenderRegChannel::G
    } else if code == 2 {
        PixelBenderRegChannel::B
    } else {
        PixelBenderRegChannel::A
    }
}

fn kind_from_word(word: u32) -> (r: PixelBenderRegKind)
    ensures
        r == kind_of(word),
{
    if word & 0x8000u32 != 0 {
        PixelBenderRegKind::Int
    } else {
        PixelBenderRegKind::Float
    }
}

/// Decodes a source operand: the index and kind from the low 16 bits, and `size` channels from
/// the swizzle in the high 16 bits.
pub fn read_src_reg(val: u32, size: u8) -> (r: Result<PixelBenderReg, PixelBenderError>)
    requires
        size <= 4,
    ensures
        match r {
            Ok(reg) => reg@ == src_reg(val, size) && reg@.wf(),
            Err(_) => false,
        },
{
    let swizzle = val >> 16u32;
    let mut channels: Vec<PixelBenderRegChannel> = Vec::new();
    let mut i: u8 = 0;
    while i < size
        invariant
            i <= size <= 4,
            swizzle == val >> 16u32,
            channels@ =~= Seq::new(i as nat, |k: int| channel_of(swizzle_code(val, k))),
        decreases size - i,
    {
        let code = (swizzle >> (6 - (i as u32) * 2)) & 3u32;
        let c = channel_from_code(code);
        channels.push(c);
        i = i + 1;
        assert(channels@ =~= Seq::new(i as nat, |k: int| channel_of(swizzle_code(val, k))));
    }
    let kind = kind_from_word(val);
    assert(val & 0x7FFFu32 <= 0x7FFF) by (bit_vector);
    Ok(PixelBenderReg { index: val & 0x7FFFu32, channels, kind })
}

/// Decodes a destination operand: the index and kind from the word, the channels from the bits
/// of the write mask.
pub fn read_dst_reg(val: u16, mask: u8) -> (r: Result<PixelBenderReg, PixelBenderError>)
    ensures
        match r {
            Ok(reg) => reg@ == dst_reg(val, mask) && reg@.wf(),
            Err(_) => false,
        },
{
    let mut channels: Vec<PixelBenderRegChannel> = Vec::new();
    if mask & 0x8u8 != 0 {
        channels.push(PixelBenderRegChannel::R);
    }
    if mask & 0x4u8 != 0 {
        channels.push(PixelBenderRegChannel::G);
    }
    if mask & 0x2u8 != 0 {
        channels.push(PixelBenderRegChannel::B);
    }
    if mask & 0x1u8 != 0 {
        channels.push(PixelBenderRegChannel::A);
    }
    assert(channels@ =~= mask_channels(mask));
    let kind = kind_from_word(val as u32);
    assert(val & 0x7FFFu16 <= 0x7FFF) by (bit_vector);
    Ok(PixelBenderReg { index: (val & 0x7FFFu16) as u32, channels, kind })
}

} // verus!
