use vstd::prelude::*;

use crate::bits::{bit_set, contains, flags_contain, has_bit};
use crate::error::RenderError;

verus! {

/// Memory property flag: memory local to the device.
pub const MEMORY_DEVICE_LOCAL: u32 = 0x1;
/// Memory property flag: memory the host can map.
pub const MEMORY_HOST_VISIBLE: u32 = 0x2;
/// Memory property flag: host writes need no explicit flush.
pub const MEMORY_HOST_COHERENT: u32 = 0x4;

/// Memory type `i` may back a resource whose requirement mask is `type_bits`
/// and that asks for the property flags `properties`.
pub open spec fn memory_type_suitable(type_bits: u32, type_flags: Seq<u32>, properties: u32, i: int) -> bool {
    &&& 0 <= i < type_flags.len()
    &&& i < 32
    &&& bit_set(type_bits, i as u32)
    &&& flags_contain(type_flags[i], properties)
}

/// Picks the first memory type whose bit is set in `type_bits` (the resource's
/// requirement mask) and whose property flags, from `type_flags`, contain
/// all of `properties`.
pub fn get_memory_type_index(type_bits: u32, type_flags: &Vec<u32>, properties: u32) -> (r: Result<u32, RenderError>)
    ensures
        match r {
            Ok(i) => {
                &&& memory_type_suitable(type_bits, type_flags@, properties, i as int)
                &&& forall|j: int| 0 <= j < i ==> !memory_type_suitable(type_bits, type_flags@, properties, j)
            },
            Err(e) => {
                &&& e == RenderError::NoSuitableMemoryType
                &&& forall|j: int| !memory_type_suitable(type_bits, type_flags@, properties, j)
            },
        },
{
    let n = type_flags.len();
    let mut i: usize = 0;
    while i < n && i < 32
        invariant
            n == type_flags@.len(),
            i <= n,
            i <= 32,
            forall|j: int| 0 <= j < i ==> !memory_type_suitable(type_bits, type_flags@, properties, j),
        decreases n - i,
    {
        if has_bit(type_bits, i as u32) && contains(type_flags[i], properties) {
            return Ok(i as u32);
        }
        i = i + 1;
    }
    Err(RenderError::NoSuitableMemoryType)
}

} // verus!
