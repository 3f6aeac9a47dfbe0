use vstd::prelude::*;

use crate::bits::{contains, flags_contain};
use crate::error::RenderError;
use vstd::arithmetic::power2::pow2;

verus! {

/// Format feature flag: the format supports linear filtering when sampled or blitted.
pub const FORMAT_FEATURE_FILTER_LINEAR: u32 = 0x1000;

/// The image layouts that mip generation moves a level through.
#[derive(Clone, Copy, Debug, PartialEq, Eq, Structural)]
pub enum MipLayout {
    TransferDst,
    TransferSrc,
    ShaderReadOnly,
}

/// One command of the mip-generation pass.
#[derive(Clone, Copy, Debug, PartialEq, Eq, Structural)]
pub enum MipStep {
    /// A layout transition of one mip level.
    Barrier { level: u32, old_layout: MipLayout, new_layout: MipLayout },
    /// A linear-filtered blit from level `src_level` into level `src_level + 1`.
    Blit { src_level: u32, src_width: u32, src_height: u32, dst_width: u32, dst_height: u32 },
}

/// One dimension of the next mip level: halved, but never below 1.
pub open spec fn half(d: u32) -> u32 {
    if d > 1 { d / 2 } else { 1 }
}

/// One dimension of mip level `k` of a base level of size `d`.
pub open spec fn level_dim(d: u32, k: nat) -> u32
    decreases k,
{
    if k == 0 { d } else { half(level_dim(d, (k - 1) as nat)) }
}

/// The number of levels in a full mip chain over a largest dimension `d`:
/// `floor(log2(d)) + 1`, and 1 for a dimension of 0 or 1.
pub open spec fn levels_for(d: u32) -> nat
    decreases d,
{
    if d <= 1 { 1 } else { 1 + levels_for(d / 2) }
}

/// The larger of the two dimensions.
pub open spec fn max_dim(width: u32, height: u32) -> u32 {
    if width >= height { width } else { height }
}

/// The commands that turn level 0 of an image in transfer-destination layout
/// into a full chain of `mip_levels` levels in shader-read layout. For each
/// level `i + 1`: level `i` goes to transfer-source layout, is blitted into
/// level `i + 1`, and goes to shader-read layout; the last level then goes from
/// transfer-destination to shader-read layout.
pub open spec fn mip_steps(width: u32, height: u32, mip_levels: u32) -> Seq<MipStep> {
    let n = (mip_levels - 1) as nat;
    Seq::new(3 * n + 1, |k: int|
        if k == 3 * n {
            MipStep::Barrier {
                level: (mip_levels - 1) as u32,
                old_layout: MipLayout::TransferDst,
                new_layout: MipLayout::ShaderReadOnly,
            }
        } else {
            let i = k / 3;
            if k % 3 == 0 {
                MipStep::Barrier { level: i as u32, old_layout: MipLayout::TransferDst, new_layout: MipLayout::TransferSrc }
            } else if k % 3 == 1 {
                MipStep::Blit {
                    src_level: i as u32,
                    src_width: level_dim(width, i as nat),
                    src_height: level_dim(height, i as nat),
                    dst_width: level_dim(width, (i + 1) as nat),
                    dst_height: level_dim(height, (i + 1) as nat),
                }
            } else {
                MipStep::Barrier { level: i as u32, old_layout: MipLayout::TransferSrc, new_layout: MipLayout::ShaderReadOnly }
            }
        }
    )
}

fn half_of(d: u32) -> (r: u32)
    ensures
        r == half(d),
{
    if d > 1 { d / 2 } else { 1 }
}

/// Every nonzero `u32` lies below `2^32`, so a chain has at most 32 levels.
proof fn lemma_levels_bound(d: u32, k: nat)
    requires
        k >= 1,
        (d as nat) < pow2(k),
    ensures
        levels_for(d) <= k,
    decreases k,
{
    if d > 1 {
        vstd::arithmetic::power2::lemma_pow2_unfold(k);
        vstd::arithmetic::power2::lemma2_to64();
        if k > 1 {
            lemma_levels_bound(d / 2, (k - 1) as nat);
        }
    }
}

/// The number of mip levels for a `width` by `height` image.
pub fn mip_levels(width: u32, height: u32) -> (r: u32)
    ensures
        r as nat == levels_for(max_dim(width, height)),
{
    let top = if width >= height { width } else { height };
    proof {
        vstd::arithmetic::power2::lemma2_to64();
        lemma_levels_bound(top, 32);
    }
    let mut d: u32 = top;
    let mut count: u32 = 1;
    while d > 1
        invariant
            count + levels_for(d) == 1 + levels_for(top),
            levels_for(top) <= 32,
        decreases d,
    {
        d = d / 2;
        count = count + 1;
    }
    count
}

proof fn lemma_level_dim_shift(d: u32, k: nat)
    ensures
        level_dim(d, k + 1) == level_dim(half(d), k),
    decreases k,
{
    assert(level_dim(d, k + 1) == half(level_dim(d, k)));
    if k > 0 {
        lemma_level_dim_shift(d, (k - 1) as nat);
        assert(level_dim(half(d), k) == half(level_dim(half(d), (k - 1) as nat)));
    } else {
        assert(level_dim(d, 0) == d);
    }
}

proof fn lemma_level_dim_reaches_one(d: u32)
    requires
        d >= 1,
    ensures
        level_dim(d, (levels_for(d) - 1) as nat) == 1,
    decreases d,
{
    if d > 1 {
        lemma_level_dim_reaches_one(d / 2);
        lemma_level_dim_shift(d, (levels_for(d / 2) - 1) as nat);
    }
}

proof fn lemma_level_dim_stays_one(d: u32, k: nat, j: nat)
    requires
        level_dim(d, k) == 1,
    ensures
        level_dim(d, k + j) == 1,
    decreases j,
{
    if j > 0 {
        lemma_level_dim_stays_one(d, k, (j - 1) as nat);
        assert(level_dim(d, k + j) == half(level_dim(d, (k + j - 1) as nat)));
    }
}

proof fn lemma_levels_monotone(e: u32, d: u32)
    requires
        e <= d,
    ensures
        levels_for(e) <= levels_for(d),
    decreases d,
{
    if e > 1 {
        lemma_levels_monotone(e / 2, d / 2);
    }
}

/// A full mip chain of a `width` by `height` image (both at least 1): level 0
/// is the image itself, each further level halves both dimensions (never below
/// 1), and the last of its `mip_levels(width, height)` levels is 1 by 1.
pub proof fn lemma_mip_chain_halves_to_one(width: u32, height: u32)
    requires
        width >= 1,
        height >= 1,
    ensures
        level_dim(width, 0) == width && level_dim(height, 0) == height,
        forall|k: nat| #[trigger] level_dim(width, k + 1) == half(level_dim(width, k)),
        forall|k: nat| #[trigger] level_dim(height, k + 1) == half(level_dim(height, k)),
        level_dim(width, (levels_for(max_dim(width, height)) - 1) as nat) == 1,
        level_dim(height, (levels_for(max_dim(width, height)) - 1) as nat) == 1,
{
    let top = max_dim(width, height);
    let last = (levels_for(top) - 1) as nat;
    lemma_level_dim_reaches_one(width);
    lemma_levels_monotone(width, top);
    lemma_level_dim_stays_one(width, (levels_for(width) - 1) as nat, (last - (levels_for(width) - 1)) as nat);
    lemma_level_dim_reaches_one(height);
    lemma_levels_monotone(height, top);
    lemma_level_dim_stays_one(height, (levels_for(height) - 1) as nat, (last - (levels_for(height) - 1)) as nat);
    assert forall|k: nat| #[trigger] level_dim(width, k + 1) == half(level_dim(width, k)) by {
        assert(((k + 1) - 1) as nat == k);
    }
    assert forall|k: nat| #[trigger] level_dim(height, k + 1) == half(level_dim(height, k)) by {
        assert(((k + 1) - 1) as nat == k);
    }
}

/// Plans the mip-generation pass for an image of `width` by `height` with
/// `mip_levels` levels, whose format supports the features `format_features`.
/// A format without linear-filter support is refused: there is no fallback.
pub fn generate_mipmaps(format_features: u32, width: u32, height: u32, mip_levels: u32) -> (r: Result<Vec<MipStep>, RenderError>)
    requires
        mip_levels >= 1,
    ensures
        !flags_contain(format_features, FORMAT_FEATURE_FILTER_LINEAR) <==> r == Err::<Vec<MipStep>, RenderError>(RenderError::UnsupportedBlitFormat),
        flags_contain(format_features, FORMAT_FEATURE_FILTER_LINEAR) ==> r.is_ok() && r.unwrap()@ == mip_steps(width, height, mip_levels),
{
    if !contains(format_features, FORMAT_FEATURE_FILTER_LINEAR) {
        return Err(RenderError::UnsupportedBlitFormat);
    }
    let mut steps: Vec<MipStep> = Vec::new();
    let mut mip_width: u32 = width;
    let mut mip_height: u32 = height;
    let mut i: u32 = 1;
    while i < mip_levels
        invariant
            1 <= i <= mip_levels,
            mip_width == level_dim(width, (i - 1) as nat),
            mip_height == level_dim(height, (i - 1) as nat),
            steps@.len() == 3 * (i - 1),
            forall|k: int| 0 <= k < steps@.len() ==> steps@[k] == #[trigger] mip_steps(width, height, mip_levels)[k],
        decreases mip_levels - i,
    {
        let next_width = half_of(mip_width);
        let next_height = half_of(mip_height);
        steps.push(MipStep::Barrier { level: i - 1, old_layout: MipLayout::TransferDst, new_layout: MipLayout::TransferSrc });
        steps.push(MipStep::Blit {
            src_level: i - 1,
            src_width: mip_width,
            src_height: mip_height,
            dst_width: next_width,
            dst_height: next_height,
        });
        steps.push(MipStep::Barrier { level: i - 1, old_layout: MipLayout::TransferSrc, new_layout: MipLayout::ShaderReadOnly });
        proof {
            let b = 3 * (i - 1) as int;
            assert(b / 3 == i - 1 && b % 3 == 0);
            assert((b + 1) / 3 == i - 1 && (b + 1) % 3 == 1);
            assert((b + 2) / 3 == i - 1 && (b + 2) % 3 == 2);
        }
        mip_width = next_width;
        mip_height = next_height;
        i = i + 1;
    }
    steps.push(MipStep::Barrier { level: mip_levels - 1, old_layout: MipLayout::TransferDst, new_layout: MipLayout::ShaderReadOnly });
    assert(steps@ =~= mip_steps(width, height, mip_levels));
    Ok(steps)
}

} // verus!
