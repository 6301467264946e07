use vstd::prelude::*;
use vstd::std_specs::bits::axiom_u32_leading_zeros;
use vstd::std_specs::bits::u32_leading_zeros;

verus! {

/// Number of significant bits of `v`: zero for zero, otherwise one more
/// than the position of the highest set bit.
pub open spec fn bit_len(v: u32) -> u32 {
    (32 - u32_leading_zeros(v)) as u32
}

/// The IEEE-754 binary32 bit pattern that holds the value of `v`, rounded
/// to nearest (ties to even): a biased exponent in bits 23..31 and the
/// 23 explicit significand bits below it.  Zero maps to the all-zero
/// pattern, and integers of up to 24 significant bits are represented
/// exactly.
pub open spec fn f32_bits_spec(v: u32) -> u32 {
    if v == 0 {
        0u32
    } else {
        let n = bit_len(v);
        if n <= 24 {
            (((n + 126) as u32) << 23) | ((v << ((24 - n) as u32)) & 0x007f_ffff)
        } else {
            let shift = (n - 24) as u32;
            let t = v >> shift;
            let rem = v & (((1u32 << shift) - 1) as u32);
            let half = 1u32 << ((shift - 1) as u32);
            let t_rounded = if rem > half || (rem == half && t & 1u32 == 1u32) {
                (t + 1) as u32
            } else {
                t
            };
            if t_rounded == 0x0100_0000 {
                // the significand carried out of 24 bits: the value is the
                // next power of two, one exponent step up
                ((n + 127) as u32) << 23
            } else {
                (((n + 126) as u32) << 23) | (t_rounded & 0x007f_ffff)
            }
        }
    }
}

/// Computes the bit pattern of `v` as a 32-bit float, the value a
/// hardware integer-to-float conversion produces.  The screen-size
/// uniform carries pixel counts in this layout.
pub fn f32_bits_from_u32(v: u32) -> (r: u32)
    ensures
        r == f32_bits_spec(v),
{
    if v == 0 {
        return 0;
    }
    let lz: u32 = v.leading_zeros();
    proof {
        axiom_u32_leading_zeros(v);
    }
    let n: u32 = 32 - lz;
    if n <= 24 {
        ((n + 126) << 23) | ((v << (24 - n)) & 0x007f_ffff)
    } else {
        let shift: u32 = n - 24;
        proof {
            assert(v >> ((32 - lz) as u32) == 0);
            assert((1u32 << shift) >= 2 && (v >> shift) < 0x0100_0000)
                by (bit_vector)
                requires
                    v >> n == 0,
                    shift == n - 24,
                    25 <= n <= 32,
            ;
        }
        let t: u32 = v >> shift;
        let rem: u32 = v & ((1u32 << shift) - 1);
        let half: u32 = 1u32 << (shift - 1);
        let t_rounded: u32 = if rem > half || (rem == half && t & 1u32 == 1u32) {
            t + 1
        } else {
            t
        };
        if t_rounded == 0x0100_0000 {
            (n + 127) << 23
        } else {
            ((n + 126) << 23) | (t_rounded & 0x007f_ffff)
        }
    }
}

} // verus!
