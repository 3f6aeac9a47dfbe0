use choam_vk::descriptors::{
    create_descriptor_pool, create_descriptor_set_layout, create_descriptor_sets, DescriptorKind, DescriptorTarget,
    DescriptorWrite, LayoutBinding, PoolSize, ShaderStage,
};
use choam_vk::error::RenderError;
use choam_vk::mipmaps::{generate_mipmaps, mip_levels, MipLayout, MipStep, FORMAT_FEATURE_FILTER_LINEAR};

#[test]
fn mip_levels_exact() {
    assert_eq!(mip_levels(512, 512), 10);
    assert_eq!(mip_levels(600, 20), 10);
    assert_eq!(mip_levels(1, 1), 1);
    assert_eq!(mip_levels(0, 0), 1);
    assert_eq!(mip_levels(2, 3), 2);
    assert_eq!(mip_levels(1024, 4096), 13);
    assert_eq!(mip_levels(u32::MAX, 1), 32);
}

#[test]
fn mip_chain_512_has_ten_halving_levels() {
    let levels = mip_levels(512, 512);
    assert_eq!(levels, 10);
    let steps = generate_mipmaps(FORMAT_FEATURE_FILTER_LINEAR, 512, 512, levels).unwrap();
    assert_eq!(steps.len(), 3 * 9 + 1);
    let blits: Vec<(u32, u32, u32, u32, u32)> = steps
        .iter()
        .filter_map(|s| match *s {
            MipStep::Blit { src_level, src_width, src_height, dst_width, dst_height } => {
                Some((src_level, src_width, src_height, dst_width, dst_height))
            }
            _ => None,
        })
        .collect();
    assert_eq!(blits.len(), 9);
    let mut size = 512;
    for (k, b) in blits.iter().enumerate() {
        assert_eq!(*b, (k as u32, size, size, size / 2, size / 2));
        size /= 2;
    }
    assert_eq!(size, 1);
}

#[test]
fn mip_steps_transition_each_level() {
    let steps = generate_mipmaps(0x1000 | 0x1, 4, 2, 3).unwrap();
    let expected = vec![
        MipStep::Barrier { level: 0, old_layout: MipLayout::TransferDst, new_layout: MipLayout::TransferSrc },
        MipStep::Blit { src_level: 0, src_width: 4, src_height: 2, dst_width: 2, dst_height: 1 },
        MipStep::Barrier { level: 0, old_layout: MipLayout::TransferSrc, new_layout: MipLayout::ShaderReadOnly },
        MipStep::Barrier { level: 1, old_layout: MipLayout::TransferDst, new_layout: MipLayout::TransferSrc },
        MipStep::Blit { src_level: 1, src_width: 2, src_height: 1, dst_width: 1, dst_height: 1 },
        MipStep::Barrier { level: 1, old_layout: MipLayout::TransferSrc, new_layout: MipLayout::ShaderReadOnly },
        MipStep::Barrier { level: 2, old_layout: MipLayout::TransferDst, new_layout: MipLayout::ShaderReadOnly },
    ];
    assert_eq!(steps, expected);
    let single = generate_mipmaps(FORMAT_FEATURE_FILTER_LINEAR, 7, 7, 1).unwrap();
    assert_eq!(
        single,
        vec![MipStep::Barrier { level: 0, old_layout: MipLayout::TransferDst, new_layout: MipLayout::ShaderReadOnly }]
    );
}

#[test]
fn mip_generation_needs_linear_blit() {
    assert_eq!(generate_mipmaps(0x0fff, 512, 512, 10), Err(RenderError::UnsupportedBlitFormat));
    assert_eq!(generate_mipmaps(0, 1, 1, 1), Err(RenderError::UnsupportedBlitFormat));
}

#[test]
fn descriptor_layout_and_pool() {
    let layout = create_descriptor_set_layout();
    assert_eq!(
        layout,
        vec![
            LayoutBinding { binding: 0, kind: DescriptorKind::UniformBuffer, count: 1, stage: ShaderStage::Vertex },
            LayoutBinding { binding: 1, kind: DescriptorKind::CombinedImageSampler, count: 1, stage: ShaderStage::Fragment },
        ]
    );
    let pool = create_descriptor_pool(3);
    assert_eq!(pool.uniform_buffers, PoolSize { kind: DescriptorKind::UniformBuffer, count: 3 });
    assert_eq!(pool.samplers, PoolSize { kind: DescriptorKind::CombinedImageSampler, count: 3 });
    assert_eq!(pool.max_sets, 3);
}

#[test]
fn descriptor_writes_per_image() {
    let writes = create_descriptor_sets(2);
    assert_eq!(
        writes,
        vec![
            DescriptorWrite { set: 0, binding: 0, kind: DescriptorKind::UniformBuffer, target: DescriptorTarget::UniformBuffer(0) },
            DescriptorWrite { set: 0, binding: 1, kind: DescriptorKind::CombinedImageSampler, target: DescriptorTarget::Texture },
            DescriptorWrite { set: 1, binding: 0, kind: DescriptorKind::UniformBuffer, target: DescriptorTarget::UniformBuffer(1) },
            DescriptorWrite { set: 1, binding: 1, kind: DescriptorKind::CombinedImageSampler, target: DescriptorTarget::Texture },
        ]
    );
    assert!(create_descriptor_sets(0).is_empty());
}
