//! General purpose code.

use vstd::prelude::*;

verus! {

/// One kibibyte, in bytes.
pub const KIB: usize = 1024;
/// One mebibyte, in bytes.
pub const MIB: usize = 1024 * 1024;
/// One gibibyte, in bytes.
pub const GIB: usize = 1024 * 1024 * 1024;

/// `size / divisor`, rounded up.
pub open spec fn div_ceil_spec(size: usize, divisor: usize) -> int
    recommends
        divisor > 0,
{
    if size % divisor == 0 {
        size as int / divisor as int
    } else {
        size as int / divisor as int + 1
    }
}

/// `size / divisor`, rounded up.
fn div_ceil(size: usize, divisor: usize) -> (r: usize)
    requires
        divisor > 1,
    ensures
        r == div_ceil_spec(size, divisor),
{
    if size % divisor == 0 {
        size / divisor
    } else {
        assert(size / divisor < size) by (nonlinear_arith)
            requires
                size % divisor != 0 && divisor > 1,
        ;
        size / divisor + 1
    }
}

/// Convert a size into a human-readable format.
///
/// Sizes of at least one unit are scaled by rounding the quotient up; the
/// divisor is always the gibibyte one, matching the behaviour this kernel
/// has always shown in its diagnostics.
pub fn size_human_readable_ceil(size: usize) -> (r: (usize, &'static str))
    ensures
        size / GIB > 0 ==> r.0 == div_ceil_spec(size, GIB) && r.1@ == "GiB"@,
        size / GIB == 0 && size / MIB > 0 ==> r.0 == div_ceil_spec(size, GIB) && r.1@ == "MiB"@,
        size / GIB == 0 && size / MIB == 0 && size / KIB > 0 ==> r.0 == div_ceil_spec(size, GIB)
            && r.1@ == "KiB"@,
        size / KIB == 0 ==> r.0 == size && r.1@ == "Byte"@,
{
    if size / GIB > 0 {
        (div_ceil(size, GIB), "GiB")
    } else if size / MIB > 0 {
        (div_ceil(size, GIB), "MiB")
    } else if size / KIB > 0 {
        (div_ceil(size, GIB), "KiB")
    } else {
        (size, "Byte")
    }
}

} // verus!
