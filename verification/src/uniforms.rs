use vstd::prelude::*;

use crate::f32bits::f32_bits_from_u32;
use crate::f32bits::f32_bits_spec;
use vstd::bytes::spec_u32_to_le_bytes;
use vstd::bytes::u32_to_le_bytes;

verus! {

/// Shader-visible layout of the elapsed-time uniform: one 32-bit float,
/// little-endian.  `bits` is the float's bit pattern.
pub open spec fn time_payload_spec(bits: u32) -> Seq<u8> {
    spec_u32_to_le_bytes(bits)
}

/// Shader-visible layout of the screen-size uniform: width then height,
/// each a 32-bit little-endian float holding the pixel count.
pub open spec fn screen_payload_spec(width: u32, height: u32) -> Seq<u8> {
    spec_u32_to_le_bytes(f32_bits_spec(width)) + spec_u32_to_le_bytes(f32_bits_spec(height))
}

/// Owns the host-side values behind the two uniform buffers.  The GPU
/// buffers themselves are never reallocated; each frame (or resize) the
/// driver writes a payload produced here into a transient staging
/// buffer and enqueues a copy into the persistent uniform buffer.
///
/// `time_bits` is the bit pattern of elapsed seconds since process
/// start as a 32-bit float; it only ever grows, because elapsed time is
/// monotonic and the float conversion of a non-negative monotonic value
/// has monotonic bits.
#[derive(Clone, Copy, PartialEq, Eq, Structural, Debug)]
pub struct UniformStore {
    pub time_bits: u32,
    pub width: u32,
    pub height: u32,
}

impl UniformStore {
    pub fn new(width: u32, height: u32, time_bits: u32) -> (r: UniformStore)
        ensures
            r == (UniformStore { time_bits, width, height }),
    {
        UniformStore { time_bits, width, height }
    }

    /// Records a new window size.  No GPU side effect: only what the
    /// next screen-size payload holds changes.
    pub fn set_screen_size(&mut self, width: u32, height: u32)
        ensures
            final(self).width == width,
            final(self).height == height,
            final(self).time_bits == old(self).time_bits,
    {
        self.width = width;
        self.height = height;
    }

    /// Records a new elapsed time, given as the bit pattern of the
    /// 32-bit float of elapsed seconds.  Time never runs backwards.
    pub fn set_time_bits(&mut self, bits: u32)
        requires
            bits >= old(self).time_bits,
        ensures
            final(self).time_bits == bits,
            final(self).width == old(self).width,
            final(self).height == old(self).height,
    {
        self.time_bits = bits;
    }

    /// The latest elapsed-time value in the shader-visible layout.
    pub fn current_time_payload(&self) -> (r: Vec<u8>)
        ensures
            r@ == time_payload_spec(self.time_bits),
            r@.len() == 4,
    {
        u32_to_le_bytes(self.time_bits)
    }

    /// The latest screen size in the shader-visible layout.
    pub fn current_screen_size_payload(&self) -> (r: Vec<u8>)
        ensures
            r@ == screen_payload_spec(self.width, self.height),
            r@.len() == 8,
    {
        let mut out = u32_to_le_bytes(f32_bits_from_u32(self.width));
        let mut tail = u32_to_le_bytes(f32_bits_from_u32(self.height));
        out.append(&mut tail);
        out
    }
}

} // verus!
