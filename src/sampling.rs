use vstd::prelude::*;

verus! {

/// Format feature flag: the format can be a depth/stencil attachment.
pub const FORMAT_FEATURE_DEPTH_STENCIL_ATTACHMENT: u32 = 0x200;

/// Whether candidate `i`, with format features from `features`, can back a
/// depth attachment.
pub open spec fn depth_capable(features: Seq<u32>, i: int) -> bool {
    0 <= i < features.len() && crate::bits::flags_contain(features[i], FORMAT_FEATURE_DEPTH_STENCIL_ATTACHMENT)
}

/// Picks the depth format: the first candidate, in order of preference, whose
/// optimal-tiling features (`features`, one per candidate) allow a
/// depth/stencil attachment; none when no candidate does.
pub fn choose_depth_format(features: &Vec<u32>) -> (r: Option<usize>)
    ensures
        match r {
            Some(i) => depth_capable(features@, i as int) && forall|j: int| 0 <= j < i ==> !depth_capable(features@, j),
            None => forall|j: int| !depth_capable(features@, j),
        },
{
    let mut i: usize = 0;
    while i < features.len()
        invariant
            i <= features@.len(),
            forall|j: int| 0 <= j < i ==> !depth_capable(features@, j),
        decreases features.len() - i,
    {
        if crate::bits::contains(features[i], FORMAT_FEATURE_DEPTH_STENCIL_ATTACHMENT) {
            return Some(i);
        }
        i = i + 1;
    }
    None
}

/// Whether `counts` offers `n` samples per pixel (a sample-count flag set).
pub open spec fn offers(counts: u32, n: u32) -> bool {
    counts & n != 0
}

pub open spec fn is_sample_count(n: u32) -> bool {
    n == 1 || n == 2 || n == 4 || n == 8 || n == 16 || n == 32 || n == 64
}

/// Picks the multisample count for color and depth attachments: the largest
/// count of 2 to 64 that both `color_counts` and `depth_counts` offer, else 1.
pub fn get_max_msaa_samples(color_counts: u32, depth_counts: u32) -> (r: u32)
    ensures
        is_sample_count(r),
        r > 1 ==> offers(color_counts & depth_counts, r),
        forall|n: u32| is_sample_count(n) && n > r && n > 1 ==> !offers(color_counts & depth_counts, n),
{
    let counts = color_counts & depth_counts;
    if counts & 64 != 0 {
        64
    } else if counts & 32 != 0 {
        32
    } else if counts & 16 != 0 {
        16
    } else if counts & 8 != 0 {
        8
    } else if counts & 4 != 0 {
        4
    } else if counts & 2 != 0 {
        2
    } else {
        1
    }
}

} // verus!
