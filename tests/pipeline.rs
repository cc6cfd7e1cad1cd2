use std::sync::Arc;

use mercurian::device::{
    check_extensions, check_physical_device, device_extensions, get_max_msaa_samples, pick_physical_device,
    PhysicalDeviceInfo, QueueFamily, QueueFamilyIndices, SuitabilityError,
};
use mercurian::loader::{Loadable, Loader};
use mercurian::model::{
    check_bundle_parts, descriptor_pool_layout, descriptor_writes, draw_calls, secondary_buffers_to_allocate, BundleError,
    BundleLayout, BundleParts,
};
use mercurian::scene::Scene;
use mercurian::shader::{
    descriptor_set_layout_bindings, shader_type_for, DescriptorType, ShaderContainer, ShaderStage, ShaderType,
    VulkanShader,
};
use mercurian::swapchain::{
    get_sharing_mode, get_swapchain_extent, get_swapchain_image_count, get_swapchain_present_mode,
    get_swapchain_surface_format, teardown_order, Extent2D, SharingMode, SurfaceCapabilities,
    SurfaceFormat, SwapchainResource, COLOR_SPACE_SRGB_NONLINEAR, FORMAT_B8G8R8A8_SRGB, PRESENT_MODE_FIFO,
    PRESENT_MODE_MAILBOX,
};
use mercurian::targets::{
    attachment_order, depth_format_candidates, framebuffer_attachments, get_depth_format, get_supported_format,
    AttachmentRole, FormatCandidate, FormatProperties, ImageTiling, NoSupportedFormatError,
    FEATURE_DEPTH_STENCIL_ATTACHMENT, FORMAT_D24_UNORM_S8_UINT, FORMAT_D32_SFLOAT,
};
use mercurian::texture::{check_linear_blit, mip_blits, mip_levels, Texture, UnsupportedFormatError};

fn good_device() -> PhysicalDeviceInfo {
    PhysicalDeviceInfo {
        queue_families: vec![
            QueueFamily { graphics: false, present: true },
            QueueFamily { graphics: true, present: true },
        ],
        extensions: vec!["VK_KHR_surface".to_string(), "VK_KHR_swapchain".to_string()],
        surface_format_count: 2,
        present_mode_count: 1,
        sampler_anisotropy: true,
        color_sample_counts: 0b0111_1111,
        depth_sample_counts: 0b0000_1111,
    }
}

#[test]
fn queue_families_are_the_first_capable_ones() {
    let indices = QueueFamilyIndices::get(&good_device().queue_families).unwrap();
    assert_eq!(indices, QueueFamilyIndices { graphics: 1, present: 0 });
    assert_eq!(indices.unique(), vec![1, 0]);
    let shared = QueueFamilyIndices { graphics: 2, present: 2 };
    assert_eq!(shared.unique(), vec![2]);
    let none = vec![QueueFamily { graphics: true, present: false }];
    assert_eq!(QueueFamilyIndices::get(&none).unwrap_err(), SuitabilityError::MissingQueueFamilies);
}

#[test]
fn device_checks_report_the_first_flaw() {
    assert_eq!(check_physical_device(&good_device()), Ok(()));
    let mut d = good_device();
    d.extensions = vec!["VK_KHR_surface".to_string()];
    assert_eq!(check_physical_device(&d), Err(SuitabilityError::MissingExtensions));
    let mut d = good_device();
    d.present_mode_count = 0;
    assert_eq!(check_physical_device(&d), Err(SuitabilityError::InsufficientSwapchainSupport));
    let mut d = good_device();
    d.sampler_anisotropy = false;
    assert_eq!(check_physical_device(&d), Err(SuitabilityError::NoSamplerAnisotropy));
    let mut d = good_device();
    d.queue_families = vec![];
    d.sampler_anisotropy = false;
    assert_eq!(check_physical_device(&d), Err(SuitabilityError::MissingQueueFamilies));
    assert_eq!(device_extensions(), vec!["VK_KHR_swapchain".to_string()]);
    assert!(check_extensions(&vec!["VK_KHR_swapchain".to_string()]));
    assert!(!check_extensions(&vec![]));
}

#[test]
fn the_first_suitable_device_is_picked_with_its_sample_count() {
    let mut bad = good_device();
    bad.sampler_anisotropy = false;
    let devices = vec![bad, good_device()];
    assert_eq!(pick_physical_device(&devices), Ok((1, 8)));
    let mut bad = good_device();
    bad.surface_format_count = 0;
    assert!(pick_physical_device(&vec![bad]).is_err());
    assert!(pick_physical_device(&vec![]).is_err());
}

#[test]
fn msaa_takes_the_highest_common_count() {
    assert_eq!(get_max_msaa_samples(0b111_1111, 0b111_1111), 64);
    assert_eq!(get_max_msaa_samples(0b000_1111, 0b111_1111), 8);
    assert_eq!(get_max_msaa_samples(0b010_0101, 0b000_0101), 4);
    assert_eq!(get_max_msaa_samples(0b000_0001, 0b111_1111), 1);
    assert_eq!(get_max_msaa_samples(0, 0), 1);
}

#[test]
fn swapchain_prefers_srgb_and_mailbox() {
    let other = SurfaceFormat { format: 44, color_space: COLOR_SPACE_SRGB_NONLINEAR };
    let srgb = SurfaceFormat { format: FORMAT_B8G8R8A8_SRGB, color_space: COLOR_SPACE_SRGB_NONLINEAR };
    assert_eq!(get_swapchain_surface_format(&vec![other, srgb]), srgb);
    assert_eq!(get_swapchain_surface_format(&vec![other]), other);
    assert_eq!(get_swapchain_present_mode(&vec![0, PRESENT_MODE_MAILBOX]), PRESENT_MODE_MAILBOX);
    assert_eq!(get_swapchain_present_mode(&vec![0, 3]), PRESENT_MODE_FIFO);
    assert_eq!(get_swapchain_present_mode(&vec![]), PRESENT_MODE_FIFO);
}

fn capabilities(current_width: u32) -> SurfaceCapabilities {
    SurfaceCapabilities {
        min_image_count: 2,
        max_image_count: 3,
        current_extent: Extent2D { width: current_width, height: 600 },
        min_image_extent: Extent2D { width: 100, height: 100 },
        max_image_extent: Extent2D { width: 1000, height: 500 },
    }
}

#[test]
fn swapchain_extent_and_image_count() {
    let window = Extent2D { width: 50, height: 700 };
    assert_eq!(get_swapchain_extent(&capabilities(800), window), Extent2D { width: 800, height: 600 });
    assert_eq!(get_swapchain_extent(&capabilities(u32::MAX), window), Extent2D { width: 100, height: 500 });
    assert_eq!(get_swapchain_image_count(&capabilities(800)), 3);
    let mut caps = capabilities(800);
    caps.min_image_count = 3;
    assert_eq!(get_swapchain_image_count(&caps), 3);
    caps.max_image_count = 0;
    assert_eq!(get_swapchain_image_count(&caps), 4);
}

#[test]
fn sharing_is_concurrent_only_across_families() {
    let (mode, families) = get_sharing_mode(&QueueFamilyIndices { graphics: 0, present: 1 });
    assert_eq!(mode, SharingMode::Concurrent);
    assert_eq!(families, vec![0, 1]);
    let (mode, families) = get_sharing_mode(&QueueFamilyIndices { graphics: 1, present: 1 });
    assert_eq!(mode, SharingMode::Exclusive);
    assert!(families.is_empty());
}

#[test]
fn resize_tears_down_dependents_first() {
    assert_eq!(
        teardown_order(),
        vec![
            SwapchainResource::Attachments,
            SwapchainResource::Framebuffers,
            SwapchainResource::Pipelines,
            SwapchainResource::RenderPass,
            SwapchainResource::ImageViews,
            SwapchainResource::Swapchain,
        ]
    );
}

fn props(optimal: u32) -> FormatProperties {
    FormatProperties { linear_tiling_features: 0, optimal_tiling_features: optimal }
}

#[test]
fn depth_format_falls_back_to_the_only_supported_one() {
    let properties = vec![props(0), props(0), props(FEATURE_DEPTH_STENCIL_ATTACHMENT)];
    assert_eq!(get_depth_format(&properties), Ok(FORMAT_D24_UNORM_S8_UINT));
}

#[test]
fn depth_format_prefers_the_first_candidate() {
    let all = props(FEATURE_DEPTH_STENCIL_ATTACHMENT | 1);
    assert_eq!(get_depth_format(&vec![all, all, all]), Ok(FORMAT_D32_SFLOAT));
    assert_eq!(get_depth_format(&vec![props(1), props(0), props(1 << 10)]), Err(NoSupportedFormatError));
    assert_eq!(depth_format_candidates(), vec![126, 130, 129]);
}

#[test]
fn supported_format_reads_the_requested_tiling() {
    let linear_only = FormatCandidate {
        format: 7,
        properties: FormatProperties { linear_tiling_features: 0b110, optimal_tiling_features: 0 },
    };
    let candidates = vec![linear_only];
    assert_eq!(get_supported_format(&candidates, ImageTiling::Linear, 0b100), Ok(7));
    assert_eq!(get_supported_format(&candidates, ImageTiling::Optimal, 0b100), Err(NoSupportedFormatError));
}

#[test]
fn framebuffer_attachments_follow_the_render_pass_order() {
    assert_eq!(
        attachment_order(),
        vec![AttachmentRole::Color, AttachmentRole::Depth, AttachmentRole::Resolve]
    );
    assert_eq!(framebuffer_attachments(11, 22, 33), vec![11, 22, 33]);
}

#[test]
fn textured_and_untextured_layouts() {
    let textured = descriptor_set_layout_bindings(ShaderType::Textured);
    assert_eq!(textured.len(), 2);
    assert_eq!(textured[1].binding, 1);
    assert_eq!(textured[1].descriptor_type, DescriptorType::CombinedImageSampler);
    assert_eq!(textured[1].stage, ShaderStage::Fragment);
    let plain = descriptor_set_layout_bindings(ShaderType::Untextured);
    assert_eq!(plain.len(), 1);
    assert_eq!(plain[0].descriptor_type, DescriptorType::UniformBuffer);
    assert_eq!(descriptor_pool_layout(ShaderType::Untextured, 3).pool_sizes().len(), 1);
    assert_eq!(descriptor_pool_layout(ShaderType::Textured, 3).pool_sizes()[1].descriptor_count, 3);
}

fn add_object(cache: &mut ShaderContainer, has_texture: bool, vertices: usize, indices: usize, images: u32, next_handle: &mut u64) -> BundleLayout {
    let kind = shader_type_for(has_texture);
    if cache.get(kind).is_none() {
        *next_handle += 3;
        cache.insert(VulkanShader::new(kind, *next_handle, *next_handle + 1, *next_handle + 2));
    }
    BundleLayout::from_object(has_texture, vertices, indices, images).unwrap()
}

#[test]
fn triangle_and_textured_rectangle_share_a_two_entry_cache() {
    let triangle_indices: Vec<u32> = vec![0, 1, 2, 2, 0, 1];
    let rectangle_indices: Vec<u32> = vec![0, 1, 2, 2, 3, 0, 2, 1, 0, 0, 3, 2];
    let image_count = 3;
    let mut cache = ShaderContainer::new();
    let mut handle = 0;
    let triangle = add_object(&mut cache, false, 3, triangle_indices.len(), image_count, &mut handle);
    let rectangle = add_object(&mut cache, true, 4, rectangle_indices.len(), image_count, &mut handle);
    assert_eq!(cache.len(), 2);
    assert_eq!(cache.kinds(), vec![ShaderType::Textured, ShaderType::Untextured]);
    assert_eq!(triangle.shader, ShaderType::Untextured);
    assert_eq!(rectangle.shader, ShaderType::Textured);
    assert_eq!(triangle.descriptor_pool.max_sets, image_count);
    assert_eq!(rectangle.descriptor_pool.max_sets, image_count);
    assert_eq!(rectangle.index_count, 12);
    // A second untextured object reuses the cached variant.
    let cached = cache.get(ShaderType::Untextured).unwrap();
    add_object(&mut cache, false, 3, 6, image_count, &mut handle);
    assert_eq!(cache.len(), 2);
    assert_eq!(cache.get(ShaderType::Untextured), Some(cached));
}

#[test]
fn shader_reload_keeps_the_descriptor_set_layout() {
    let mut cache = ShaderContainer::new();
    assert_eq!(cache.len(), 0);
    cache.insert(VulkanShader::new(ShaderType::Textured, 1, 2, 3));
    cache.reload_swapchain(ShaderType::Textured, 10, 20);
    let s = cache.get(ShaderType::Textured).unwrap();
    assert_eq!((s.pipeline(), s.pipeline_layout(), s.descriptor_set_layout()), (10, 20, 3));
}

#[test]
fn reloading_twice_equals_reloading_once() {
    let mut once = BundleLayout::from_object(true, 4, 12, 2).unwrap();
    once.reload_swapchain(3);
    let mut twice = once;
    twice.reload_swapchain(3);
    assert_eq!(once, twice);
    assert_eq!(once.uniform_buffer_count, 3);
    assert_eq!(once.descriptor_pool, descriptor_pool_layout(ShaderType::Textured, 3));
    assert_eq!(once.index_count, 12);
}

#[test]
fn bundle_errors() {
    assert_eq!(BundleLayout::from_object(false, 0, 3, 2), Err(BundleError::EmptyGeometry));
    assert_eq!(BundleLayout::from_object(false, 3, 0, 2), Err(BundleError::EmptyGeometry));
    let parts = BundleParts { vertex_buffer: true, uniform_buffers: true, descriptor: true, texture: Some(false) };
    assert_eq!(check_bundle_parts(&parts), Err(BundleError::InvalidBundle));
    let parts = BundleParts { texture: None, ..parts };
    assert_eq!(check_bundle_parts(&parts), Ok(()));
}

#[test]
fn draws_follow_insertion_order() {
    let a = BundleLayout::from_object(false, 3, 6, 2).unwrap();
    let b = BundleLayout::from_object(true, 4, 12, 2).unwrap();
    let calls = draw_calls(&vec![a, b], 1);
    assert_eq!(calls.len(), 2);
    assert_eq!((calls[0].model, calls[0].index_count, calls[0].shader), (0, 6, ShaderType::Untextured));
    assert_eq!((calls[1].model, calls[1].index_count, calls[1].descriptor_set), (1, 12, 1));
    assert_eq!(secondary_buffers_to_allocate(1, 3), 2);
    assert_eq!(secondary_buffers_to_allocate(4, 3), 0);
}

#[test]
fn mip_chain_halves_down_to_one() {
    assert_eq!(mip_levels(1024, 512), 11);
    assert_eq!(mip_levels(1, 1), 1);
    assert_eq!(mip_levels(0, 0), 1);
    assert_eq!(mip_levels(300, 5), 9);
    let blits = mip_blits(4, 2, 3);
    assert_eq!(blits.len(), 2);
    assert_eq!((blits[0].src_width, blits[0].src_height, blits[0].dst_width, blits[0].dst_height), (4, 2, 2, 1));
    assert_eq!((blits[1].level, blits[1].dst_width, blits[1].dst_height), (2, 1, 1));
    assert!(mip_blits(4, 4, 1).is_empty());
    assert!(mip_blits(4, 4, 0).is_empty());
}

#[test]
fn linear_blit_support_is_required() {
    assert_eq!(check_linear_blit(1 << 12), Ok(()));
    assert_eq!(check_linear_blit(1 << 11), Err(UnsupportedFormatError));
    let t = Texture::construct(vec![1, 2, 3, 4, 5, 6, 7, 8], 2, 1);
    assert_eq!((t.width(), t.height(), t.buffer_size()), (2, 1, 8));
    assert_eq!(t.data(), &[1, 2, 3, 4, 5, 6, 7, 8]);
}

struct Counted(usize);

impl Loadable for Counted {
    fn load(path: &String) -> Result<Self, anyhow::Error> {
        if path.starts_with("missing") {
            Err(anyhow::Error::msg("no such file"))
        } else {
            Ok(Counted(path.len()))
        }
    }
}

#[test]
fn loader_loads_each_path_once() {
    let mut loader: Loader<Counted> = Loader::new();
    let first = loader.load(&"a.png".to_string()).unwrap();
    let again = loader.load(&"a.png".to_string()).unwrap();
    assert!(Arc::ptr_eq(&first, &again));
    let other = loader.load(&"bb.png".to_string()).unwrap();
    assert!(!Arc::ptr_eq(&first, &other));
    assert_eq!(other.0, 6);
    assert!(loader.load(&"missing.png".to_string()).is_err());
    let mut fresh: Loader<Counted> = Loader::default();
    assert_eq!(fresh.load(&"c".to_string()).unwrap().0, 1);
}

fn add_to_scene(scene: &mut Scene, has_texture: bool, vertices: usize, indices: usize) -> BundleLayout {
    if let Some(kind) = scene.missing_shader(has_texture) {
        let base = 10 * (scene.shader_kinds().len() as u64 + 1);
        scene.insert_shader(VulkanShader::new(kind, base, base + 1, base + 2));
    }
    scene.add_object(has_texture, vertices, indices).unwrap()
}

#[test]
fn scene_with_untextured_triangle_and_textured_rectangle() {
    let triangle_indices: Vec<u32> = vec![0, 1, 2, 2, 0, 1];
    let rectangle_indices: Vec<u32> = vec![0, 1, 2, 2, 3, 0, 2, 1, 0, 0, 3, 2];
    let mut scene = Scene::new(3);
    add_to_scene(&mut scene, false, 3, triangle_indices.len());
    add_to_scene(&mut scene, true, 4, rectangle_indices.len());
    let mut kinds = scene.shader_kinds();
    kinds.sort_by_key(|k| *k == ShaderType::Untextured);
    assert_eq!(kinds, vec![ShaderType::Textured, ShaderType::Untextured]);
    assert_eq!(scene.bundles().len(), 2);
    for b in scene.bundles() {
        assert_eq!(b.descriptor_pool.max_sets, scene.image_count());
        assert_eq!(b.uniform_buffer_count, 3);
    }
    assert_eq!(scene.bundles()[0].shader, ShaderType::Untextured);
    assert_eq!(scene.bundles()[1].descriptor_pool.samplers, 3);
    assert_eq!(scene.missing_shader(true), None);
    let calls = scene.draw_calls(2);
    assert_eq!((calls[0].index_count, calls[1].index_count), (6, 12));
}

#[test]
fn scene_reload_twice_equals_reload_once() {
    let mut scene = Scene::new(2);
    add_to_scene(&mut scene, false, 3, 6);
    add_to_scene(&mut scene, true, 4, 12);
    scene.reload_swapchain(4);
    let once: Vec<BundleLayout> = scene.bundles().clone();
    scene.reload_swapchain(4);
    assert_eq!(scene.bundles(), &once);
    assert_eq!(scene.image_count(), 4);
    assert!(once.iter().all(|b| b.descriptor_set_count == 4 && b.descriptor_pool.max_sets == 4));
    assert_eq!(once[1].index_count, 12);
    scene.reload_shader(ShaderType::Textured, 99, 98);
    assert_eq!(scene.shader(ShaderType::Textured).unwrap().pipeline(), 99);
}

#[test]
fn scene_refuses_empty_geometry_without_change() {
    let mut scene = Scene::new(2);
    scene.insert_shader(VulkanShader::new(ShaderType::Untextured, 1, 2, 3));
    assert_eq!(scene.add_object(false, 0, 3), Err(BundleError::EmptyGeometry));
    assert!(scene.bundles().is_empty());
}

#[test]
fn descriptor_writes_fill_every_binding_of_every_set() {
    let writes = descriptor_writes(ShaderType::Textured, 3);
    assert_eq!(writes.len(), 6);
    assert_eq!((writes[4].set, writes[4].binding, writes[4].descriptor_type), (2, 0, DescriptorType::UniformBuffer));
    assert_eq!((writes[5].set, writes[5].binding, writes[5].descriptor_type), (2, 1, DescriptorType::CombinedImageSampler));
    let plain = descriptor_writes(ShaderType::Untextured, 2);
    assert_eq!(plain.iter().map(|w| (w.set, w.binding)).collect::<Vec<_>>(), vec![(0, 0), (1, 0)]);
    assert!(descriptor_writes(ShaderType::Textured, 0).is_empty());
}
