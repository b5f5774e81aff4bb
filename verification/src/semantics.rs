//! The numeric semantics of the emitted comparison and conversion
//! operations: what the backend collaborator must compute for each of them.
//! Floating-point values are handled through their raw IEEE bit patterns.

use vstd::prelude::*;

verus! {

/// The `lcmp` result: a three-way signed comparison.
pub fn lcmp_value(a: i64, b: i64) -> (r: i32)
    ensures
        r == -1 || r == 0 || r == 1,
        (r == -1) <==> a < b,
        (r == 0) <==> a == b,
        (r == 1) <==> a > b,
{
    if a == b {
        0
    } else if a > b {
        1
    } else {
        -1
    }
}

/// `i2b`: truncate to 8 bits, then sign-extend back to 32.
pub fn i2b_value(v: i32) -> (r: i32)
    ensures
        r == (v as i8) as i32,
{
    #[verifier::truncate] (v as i8) as i32
}

/// `i2s`: truncate to 16 bits, then sign-extend back to 32.
pub fn i2s_value(v: i32) -> (r: i32)
    ensures
        r == (v as i16) as i32,
{
    #[verifier::truncate] (v as i16) as i32
}

/// `i2c`: truncate to 16 bits, then zero-extend back to 32.
pub fn i2c_value(v: i32) -> (r: i32)
    ensures
        r == (v as u16) as i32,
        0 <= r <= 0xffff,
{
    #[verifier::truncate] (v as u16) as i32
}

/// `bipush`: the byte operand sign-extended to 32 bits.
pub fn bipush_value(b: i8) -> (r: i32)
    ensures
        r == b as i32,
        b < 0 ==> r < 0,
{
    b as i32
}

/// `sipush`: the short operand sign-extended to 32 bits.
pub fn sipush_value(v: i16) -> (r: i32)
    ensures
        r == v as i32,
{
    v as i32
}

/// Whether a 32-bit IEEE bit pattern denotes a NaN.
pub open spec fn f32_is_nan(bits: u32) -> bool {
    (bits >> 23) & 0xff == 0xff && bits & 0x007f_ffff != 0
}

/// Whether a 64-bit IEEE bit pattern denotes a NaN.
pub open spec fn f64_is_nan(bits: u64) -> bool {
    (bits >> 52) & 0x7ff == 0x7ff && bits & 0x000f_ffff_ffff_ffff != 0
}

/// The order key of a non-NaN 32-bit IEEE value: negative values sort by
/// descending magnitude, and both zeros share the key zero.
pub open spec fn f32_key(bits: u32) -> int {
    if bits >> 31 == 1 {
        -((bits & 0x7fff_ffff) as int)
    } else {
        (bits & 0x7fff_ffff) as int
    }
}

/// The order key of a non-NaN 64-bit IEEE value.
pub open spec fn f64_key(bits: u64) -> int {
    if bits >> 63 == 1 {
        -((bits & 0x7fff_ffff_ffff_ffff) as int)
    } else {
        (bits & 0x7fff_ffff_ffff_ffff) as int
    }
}

/// The `fcmpl` / `fcmpg` result on 32-bit IEEE bit patterns: the three-way
/// ordered comparison, with `g` picking the result when either operand is a
/// NaN.
pub fn fcmp_value(a: u32, b: u32, g: bool) -> (r: i32)
    ensures
        r == -1 || r == 0 || r == 1,
        f32_is_nan(a) || f32_is_nan(b) ==> r == (if g { 1int } else { -1int }),
        !f32_is_nan(a) && !f32_is_nan(b) ==> {
            &&& (r == 0) <==> f32_key(a) == f32_key(b)
            &&& (r == -1) <==> f32_key(a) < f32_key(b)
            &&& (r == 1) <==> f32_key(a) > f32_key(b)
        },
{
    let a_nan = (a >> 23) & 0xff == 0xff && a & 0x007f_ffff != 0;
    let b_nan = (b >> 23) & 0xff == 0xff && b & 0x007f_ffff != 0;
    if a_nan || b_nan {
        if g {
            1
        } else {
            -1
        }
    } else {
        let ka: i64 = if a >> 31 == 1 {
            -((a & 0x7fff_ffff) as i64)
        } else {
            (a & 0x7fff_ffff) as i64
        };
        let kb: i64 = if b >> 31 == 1 {
            -((b & 0x7fff_ffff) as i64)
        } else {
            (b & 0x7fff_ffff) as i64
        };
        if ka == kb {
            0
        } else if ka > kb {
            1
        } else {
            -1
        }
    }
}

/// The `dcmpl` / `dcmpg` result on 64-bit IEEE bit patterns.
pub fn dcmp_value(a: u64, b: u64, g: bool) -> (r: i32)
    ensures
        r == -1 || r == 0 || r == 1,
        f64_is_nan(a) || f64_is_nan(b) ==> r == (if g { 1int } else { -1int }),
        !f64_is_nan(a) && !f64_is_nan(b) ==> {
            &&& (r == 0) <==> f64_key(a) == f64_key(b)
            &&& (r == -1) <==> f64_key(a) < f64_key(b)
            &&& (r == 1) <==> f64_key(a) > f64_key(b)
        },
{
    let a_nan = (a >> 52) & 0x7ff == 0x7ff && a & 0x000f_ffff_ffff_ffff != 0;
    let b_nan = (b >> 52) & 0x7ff == 0x7ff && b & 0x000f_ffff_ffff_ffff != 0;
    if a_nan || b_nan {
        if g {
            1
        } else {
            -1
        }
    } else {
        let ka_mag: u64 = a & 0x7fff_ffff_ffff_ffff;
        let kb_mag: u64 = b & 0x7fff_ffff_ffff_ffff;
        proof {
            assert(a & 0x7fff_ffff_ffff_ffffu64 <= 0x7fff_ffff_ffff_ffffu64) by (bit_vector);
            assert(b & 0x7fff_ffff_ffff_ffffu64 <= 0x7fff_ffff_ffff_ffffu64) by (bit_vector);
        }
        let a_neg = a >> 63 == 1;
        let b_neg = b >> 63 == 1;
        let ka: i64 = if a_neg {
            -(ka_mag as i64)
        } else {
            ka_mag as i64
        };
        let kb: i64 = if b_neg {
            -(kb_mag as i64)
        } else {
            kb_mag as i64
        };
        if ka == kb {
            0
        } else if ka > kb {
            1
        } else {
            -1
        }
    }
}

} // verus!
