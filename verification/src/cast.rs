//! The integer conversions that C code makes silently, with their values.

use libc::c_int;
use vstd::prelude::*;

verus! {

/// The `c_int` that has the low 32 bits of `n`.
pub open spec fn int_of(n: int) -> c_int {
    let low = n % 0x1_0000_0000;
    (if low < 0x8000_0000 { low } else { low - 0x1_0000_0000 }) as c_int
}

/// The `u32` that has the low 32 bits of `n`.
pub open spec fn u32_of(n: int) -> u32 {
    (n % 0x1_0000_0000) as u32
}

/// The `u64` that has the low 64 bits of `n`.
pub open spec fn u64_of(n: int) -> u64 {
    (n % 0x1_0000_0000_0000_0000) as u64
}

/// The `usize` that a signed machine integer `n` becomes when its sign is
/// extended.
pub open spec fn usize_of(n: int) -> usize {
    (if n >= 0 { n } else { n + usize::MAX + 1 }) as usize
}

/// Reinterprets a `c_int` as unsigned.
pub fn int_to_u32(n: c_int) -> (r: u32)
    ensures
        r == u32_of(n as int),
{
    assert(n >= 0 ==> n as u32 == n) by (bit_vector);
    assert(n < 0 ==> n as u32 == n + 0x1_0000_0000) by (bit_vector);
    n as u32
}

/// Widens a `c_int` to `u64`, extending its sign.
pub fn int_to_u64(n: c_int) -> (r: u64)
    ensures
        r == u64_of(n as int),
{
    assert(n >= 0 ==> n as u64 == n) by (bit_vector);
    assert(n < 0 ==> n as u64 == n + 0x1_0000_0000_0000_0000) by (bit_vector);
    n as u64
}

/// Widens an `i64` to `u64`, keeping its bits.
pub fn i64_to_u64(n: i64) -> (r: u64)
    ensures
        r == u64_of(n as int),
{
    assert(n >= 0 ==> n as u64 == n) by (bit_vector);
    assert(n < 0 ==> n as u64 == n + 0x1_0000_0000_0000_0000) by (bit_vector);
    n as u64
}

/// Narrows an `i64` to `u32`, keeping its low bits.
pub fn i64_to_u32(n: i64) -> (r: u32)
    ensures
        r == u32_of(n as int),
{
    let wide: u64 = i64_to_u64(n);
    assert(wide as u32 == wide % 0x1_0000_0000) by (bit_vector);
    wide as u32
}

/// Widens a `c_int` to `usize`, extending its sign.
pub fn int_to_usize(n: c_int) -> (r: usize)
    ensures
        r == usize_of(n as int),
{
    isize_to_usize(n as isize)
}

/// Reinterprets an `isize` as unsigned.
pub fn isize_to_usize(n: isize) -> (r: usize)
    ensures
        r == usize_of(n as int),
{
    if n >= 0 {
        n as usize
    } else {
        usize::MAX - (-(n + 1)) as usize
    }
}

/// Reinterprets a `u32` as a `c_int`.
pub fn u32_to_int(n: u32) -> (r: c_int)
    ensures
        r == int_of(n as int),
{
    assert(n < 0x8000_0000 ==> n as i32 == n) by (bit_vector);
    assert(n >= 0x8000_0000 ==> n as i32 == n - 0x1_0000_0000) by (bit_vector);
    n as c_int
}

/// Narrows a `u64` to a `c_int`, keeping its low bits.
pub fn u64_to_int(n: u64) -> (r: c_int)
    ensures
        r == int_of(n as int),
{
    assert(n as u32 == n % 0x1_0000_0000) by (bit_vector);
    u32_to_int(n as u32)
}

/// Narrows a `usize` to a `c_int`, keeping its low bits.
pub fn usize_to_int(n: usize) -> (r: c_int)
    ensures
        r == int_of(n as int),
{
    u64_to_int(n as u64)
}

} // verus!
