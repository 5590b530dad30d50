//! Conversion of raw 32-bit float samples, as the decoding engine writes
//! them, into 8-bit samples: each sample is clamped to the output range
//! [0, 255] and truncated.
//!
//! The sample bytes are interpreted at the bit level (IEEE 754 single
//! precision, little endian), so the conversion is ordinary integer logic:
//! negative values and NaN give 0, values of 256 or more (and infinity)
//! give 255, and values in between keep their integer part.

use vstd::prelude::*;

verus! {

/// A little-endian 32-bit value assembled from four bytes.
pub open spec fn le_u32(b0: u8, b1: u8, b2: u8, b3: u8) -> u32 {
    (b0 as u32) | ((b1 as u32) << 8u32) | ((b2 as u32) << 16u32) | ((b3 as u32) << 24u32)
}

/// The 8-bit sample stored for the float with bit pattern `bits`: the value
/// clamped to [0, 255] and truncated, decided from the sign, exponent and
/// mantissa fields of the encoding. An exponent field of 127 encodes a
/// magnitude of at least 1; 135 encodes a magnitude of at least 256.
pub open spec fn clamped_u8_of_bits(bits: u32) -> u8 {
    let sign = bits >> 31u32;
    let e = (bits >> 23u32) & 0xff;
    let m = bits & 0x7fffff;
    if e == 255 && m != 0 {
        0u8
    } else if sign == 1 {
        0u8
    } else if e == 255 {
        255u8
    } else if e < 127 {
        0u8
    } else if e >= 135 {
        255u8
    } else {
        (((m | 0x800000) as u32) >> ((150 - e) as u32)) as u8
    }
}

/// The 8-bit samples read from a raw little-endian 32-bit float sample
/// buffer: one sample per full 4-byte group.
pub open spec fn u8_samples_of(raw: Seq<u8>) -> Seq<u8> {
    Seq::new(
        (raw.len() / 4) as nat,
        |i: int| clamped_u8_of_bits(le_u32(raw[4 * i], raw[4 * i + 1], raw[4 * i + 2], raw[4 * i + 3])),
    )
}

/// One sample of the conversion, as executable code.
fn clamped_u8_from_bits(bits: u32) -> (r: u8)
    ensures
        r == clamped_u8_of_bits(bits),
{
    let sign = bits >> 31u32;
    let e = (bits >> 23u32) & 0xff;
    let m = bits & 0x7fffff;
    if e == 255 && m != 0 {
        0
    } else if sign == 1 {
        0
    } else if e == 255 {
        255
    } else if e < 127 {
        0
    } else if e >= 135 {
        255
    } else {
        proof {
            assert(bits & 0x7fffff <= 0x7fffff) by (bit_vector);
        }
        let shift = 150 - e;
        let shifted = (m | 0x800000) >> shift;
        proof {
            let m0 = bits & 0x7fffff;
            let s0 = shift;
            assert((m0 | 0x800000) >> s0 <= 255) by (bit_vector)
                requires
                    m0 <= 0x7fffff,
                    16 <= s0 < 32,
            ;
        }
        shifted as u8
    }
}

/// Converts a raw float sample buffer into 8-bit samples, one per full
/// 4-byte group, each clamped to [0, 255] and truncated.
pub fn samples_to_u8(raw: &Vec<u8>) -> (r: Vec<u8>)
    ensures
        r@ == u8_samples_of(raw@),
        r@.len() == raw@.len() / 4,
{
    let n = raw.len() / 4;
    let mut out: Vec<u8> = Vec::with_capacity(n);
    let mut i: usize = 0;
    while i < n
        invariant
            n == raw@.len() / 4,
            i <= n,
            out@.len() == i,
            forall|j: int| 0 <= j < i ==> out@[j] == u8_samples_of(raw@)[j],
        decreases n - i,
    {
        let len0 = raw.len();
        proof {
            assert(4 * (i as int) + 4 <= raw@.len()) by (nonlinear_arith)
                requires
                    (n as int) == raw@.len() / 4,
                    (i as int) < (n as int),
            ;
            assert(4 * (i as int) + 4 <= len0);
        }
        let b0 = raw[4 * i];
        let b1 = raw[4 * i + 1];
        let b2 = raw[4 * i + 2];
        let b3 = raw[4 * i + 3];
        let bits = (b0 as u32) | ((b1 as u32) << 8u32) | ((b2 as u32) << 16u32) | ((b3 as u32)
            << 24u32);
        let s = clamped_u8_from_bits(bits);
        out.push(s);
        i += 1;
    }
    proof {
        assert(out@ =~= u8_samples_of(raw@));
    }
    out
}

} // verus!
