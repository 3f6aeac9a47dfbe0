use vstd::prelude::*;

verus! {

/// The kinds of descriptor the engine binds.
#[derive(Clone, Copy, Debug, PartialEq, Eq, Structural)]
pub enum DescriptorKind {
    UniformBuffer,
    CombinedImageSampler,
}

/// The shader stages a binding is visible to.
#[derive(Clone, Copy, Debug, PartialEq, Eq, Structural)]
pub enum ShaderStage {
    Vertex,
    Fragment,
}

/// One binding of the descriptor set layout.
#[derive(Clone, Copy, Debug, PartialEq, Eq, Structural)]
pub struct LayoutBinding {
    pub binding: u32,
    pub kind: DescriptorKind,
    pub count: u32,
    pub stage: ShaderStage,
}

/// How many descriptors of one kind a pool holds.
#[derive(Clone, Copy, Debug, PartialEq, Eq, Structural)]
pub struct PoolSize {
    pub kind: DescriptorKind,
    pub count: u32,
}

/// The sizes of the descriptor pool.
#[derive(Clone, Copy, Debug, PartialEq, Eq, Structural)]
pub struct PoolPlan {
    pub uniform_buffers: PoolSize,
    pub samplers: PoolSize,
    pub max_sets: u32,
}

/// What a descriptor write points at.
#[derive(Clone, Copy, Debug, PartialEq, Eq, Structural)]
pub enum DescriptorTarget {
    /// The uniform buffer of the swapchain image with this index.
    UniformBuffer(u32),
    /// The shared texture view and sampler.
    Texture,
}

/// One descriptor write: binding `binding` of set `set` gets `target`.
#[derive(Clone, Copy, Debug, PartialEq, Eq, Structural)]
pub struct DescriptorWrite {
    pub set: u32,
    pub binding: u32,
    pub kind: DescriptorKind,
    pub target: DescriptorTarget,
}

/// Binding of the uniform block.
pub const UNIFORM_BINDING: u32 = 0;
/// Binding of the texture sampler.
pub const SAMPLER_BINDING: u32 = 1;

/// The two writes that fill set `i`.
pub open spec fn set_writes(i: u32) -> Seq<DescriptorWrite> {
    seq![
        DescriptorWrite { set: i, binding: UNIFORM_BINDING, kind: DescriptorKind::UniformBuffer, target: DescriptorTarget::UniformBuffer(i) },
        DescriptorWrite { set: i, binding: SAMPLER_BINDING, kind: DescriptorKind::CombinedImageSampler, target: DescriptorTarget::Texture },
    ]
}

/// The layout of every descriptor set: the uniform block at binding 0 for the
/// vertex stage, and the combined image sampler at binding 1 for the
/// fragment stage.
pub fn create_descriptor_set_layout() -> (r: Vec<LayoutBinding>)
    ensures
        r@ == seq![
            LayoutBinding { binding: UNIFORM_BINDING, kind: DescriptorKind::UniformBuffer, count: 1, stage: ShaderStage::Vertex },
            LayoutBinding { binding: SAMPLER_BINDING, kind: DescriptorKind::CombinedImageSampler, count: 1, stage: ShaderStage::Fragment },
        ],
{
    let mut r: Vec<LayoutBinding> = Vec::new();
    r.push(LayoutBinding { binding: UNIFORM_BINDING, kind: DescriptorKind::UniformBuffer, count: 1, stage: ShaderStage::Vertex });
    r.push(LayoutBinding { binding: SAMPLER_BINDING, kind: DescriptorKind::CombinedImageSampler, count: 1, stage: ShaderStage::Fragment });
    assert(r@ =~= seq![
        LayoutBinding { binding: UNIFORM_BINDING, kind: DescriptorKind::UniformBuffer, count: 1, stage: ShaderStage::Vertex },
        LayoutBinding { binding: SAMPLER_BINDING, kind: DescriptorKind::CombinedImageSampler, count: 1, stage: ShaderStage::Fragment },
    ]);
    r
}

/// The pool for `image_count` sets, one per swapchain image, each holding
/// one descriptor of each kind.
pub fn create_descriptor_pool(image_count: u32) -> (r: PoolPlan)
    ensures
        r == (PoolPlan {
            uniform_buffers: PoolSize { kind: DescriptorKind::UniformBuffer, count: image_count },
            samplers: PoolSize { kind: DescriptorKind::CombinedImageSampler, count: image_count },
            max_sets: image_count,
        }),
{
    PoolPlan {
        uniform_buffers: PoolSize { kind: DescriptorKind::UniformBuffer, count: image_count },
        samplers: PoolSize { kind: DescriptorKind::CombinedImageSampler, count: image_count },
        max_sets: image_count,
    }
}

/// The writes that fill the `image_count` sets: set `i` gets the uniform
/// buffer of image `i` at binding 0 and the shared texture at binding 1.
pub fn create_descriptor_sets(image_count: u32) -> (r: Vec<DescriptorWrite>)
    ensures
        r@.len() == 2 * image_count,
        forall|i: int| 0 <= i < image_count ==> {
            &&& #[trigger] r@[2 * i] == set_writes(i as u32)[0]
            &&& r@[2 * i + 1] == set_writes(i as u32)[1]
        },
{
    let mut r: Vec<DescriptorWrite> = Vec::new();
    let mut i: u32 = 0;
    while i < image_count
        invariant
            i <= image_count,
            r@.len() == 2 * i,
            forall|k: int| 0 <= k < i ==> {
                &&& #[trigger] r@[2 * k] == set_writes(k as u32)[0]
                &&& r@[2 * k + 1] == set_writes(k as u32)[1]
            },
        decreases image_count - i,
    {
        r.push(DescriptorWrite { set: i, binding: UNIFORM_BINDING, kind: DescriptorKind::UniformBuffer, target: DescriptorTarget::UniformBuffer(i) });
        r.push(DescriptorWrite { set: i, binding: SAMPLER_BINDING, kind: DescriptorKind::CombinedImageSampler, target: DescriptorTarget::Texture });
        i = i + 1;
    }
    r
}

} // verus!
