//! Decoder for ARMv5 and Thumb instruction words.
//!
//! The crate classifies raw 32-bit ARM words and 16-bit Thumb halfwords into
//! instruction kinds, exposes typed bitfield views over the raw words, and
//! builds dense lookup tables over the discriminant bits for constant-time
//! dispatch.

use vstd::prelude::*;

pub mod armfmt;
pub mod bits;
pub mod disas;
pub mod fields;
pub mod inst;
pub mod lut;
pub mod newtype;
pub mod numfmt;
pub mod traits;

verus! {

/// Convert a big-endian byte buffer into a buffer of 32-bit words.
pub fn make_u32_buf(src_buf: &Vec<u8>) -> (dst: Vec<u32>)
    requires
        src_buf@.len() % 4 == 0,
    ensures
        dst@.len() == src_buf@.len() / 4,
        forall|i: int|
            0 <= i < dst@.len() ==> dst@[i] == crate::bits::word_be(
                src_buf@[4 * i],
                src_buf@[4 * i + 1],
                src_buf@[4 * i + 2],
                src_buf@[4 * i + 3],
            ),
{
    let n: usize = src_buf.len() / 4;
    let mut dst_buf = Vec::<u32>::new();
    let mut w: usize = 0;
    while w < n
        invariant
            src_buf@.len() % 4 == 0,
            src_buf@.len() <= usize::MAX,
            n == src_buf@.len() / 4,
            w <= n,
            dst_buf@.len() == w,
            forall|i: int|
                0 <= i < dst_buf@.len() ==> dst_buf@[i] == crate::bits::word_be(
                    src_buf@[4 * i],
                    src_buf@[4 * i + 1],
                    src_buf@[4 * i + 2],
                    src_buf@[4 * i + 3],
                ),
        decreases n - w,
    {
        let x: u32 = ((src_buf[4 * w] as u32) << 24) | ((src_buf[4 * w + 1] as u32) << 16) | ((
        src_buf[4 * w + 2] as u32) << 8) | (src_buf[4 * w + 3] as u32);
        dst_buf.push(x);
        w += 1;
    }
    dst_buf
}

} // verus!
