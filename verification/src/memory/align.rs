//! Rounding of addresses to a power of two, as the `x86_64` crate does it.
//! The two contracts below are taken on trust from that crate's source.

use vstd::prelude::*;

verus! {

/// Whether `align` is a power of two.
pub open spec fn is_power_of_two(align: u64) -> bool {
    align > 0 && align & ((align - 1) as u64) == 0
}

/// `x86_64::align_down`: the greatest multiple of `align` that is not above
/// `addr`. It panics unless `align` is a power of two.
pub assume_specification[ x86_64::align_down ](addr: u64, align: u64) -> (r: u64)
    requires
        is_power_of_two(align),
    ensures
        r as int == addr - addr % align,
;

/// `x86_64::align_up`: the smallest multiple of `align` that is not below
/// `addr`. It panics unless `align` is a power of two, and where that
/// multiple does not fit in 64 bits.
pub assume_specification[ x86_64::align_up ](addr: u64, align: u64) -> (r: u64)
    requires
        is_power_of_two(align),
        addr + (align - 1) <= u64::MAX,
    ensures
        r as int == (addr + (align - 1)) - (addr + (align - 1)) % (align as int),
;

/// The frame size is a power of two.
pub proof fn lemma_frame_size_power_of_two()
    ensures
        is_power_of_two(4096),
{
    assert(4096u64 & 4095u64 == 0) by (bit_vector);
}

} // verus!
