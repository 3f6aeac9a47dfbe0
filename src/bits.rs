use vstd::prelude::*;

verus! {

/// True when every bit of `wanted` is set in `flags` (a flag set contains another).
pub open spec fn flags_contain(flags: u32, wanted: u32) -> bool {
    flags & wanted == wanted
}

/// True when bit `i` of `mask` is set.
pub open spec fn bit_set(mask: u32, i: u32) -> bool {
    i < 32 && mask & (1u32 << i) != 0
}

/// Whether the flag set `flags` contains all of `wanted`.
pub fn contains(flags: u32, wanted: u32) -> (r: bool)
    ensures
        r == flags_contain(flags, wanted),
{
    flags & wanted == wanted
}

/// Whether bit `i` of `mask` is set; bits at 32 and above are never set.
pub fn has_bit(mask: u32, i: u32) -> (r: bool)
    ensures
        r == bit_set(mask, i),
{
    i < 32 && mask & (1u32 << i) != 0
}

} // verus!
