use rafx_api::defs::{
    RafxBufferDef, RafxComputePipelineDef, RafxDescriptorSetArrayDef, RafxGraphicsPipelineDef,
    RafxRootSignatureDef, RafxSamplerDef, RafxShaderModuleDef, RafxShaderStageDef, RafxTextureDef,
};
use rafx_api::device_context::{
    RafxDeviceContext, RafxDeviceContextEmpty, RafxDeviceContextGl, RafxDeviceContextGlInner,
    RafxDeviceContextMetal, RafxDeviceContextVulkan,
};
use rafx_api::error::RafxError;
use rafx_api::resources::RafxPipelineType;
use rafx_api::types::{
    RafxAddressMode, RafxExtents3D, RafxFilterType, RafxFormat, RafxMemoryUsage, RafxMipMapMode,
    RafxPrimitiveTopology, RafxQueueType, RafxResourceType, RafxSampleCount, RafxShaderStage,
};
use std::sync::Arc;

fn empty_context() -> RafxDeviceContext {
    RafxDeviceContext::Empty(RafxDeviceContextEmpty::new())
}

fn gl_context() -> RafxDeviceContext {
    let inner = Arc::new(RafxDeviceContextGlInner::new(4).unwrap());
    RafxDeviceContext::Gl(RafxDeviceContextGl::new(inner).unwrap())
}

fn plain_usage() -> RafxResourceType {
    RafxResourceType::none()
}

fn color_usage() -> RafxResourceType {
    RafxResourceType { render_target_color: true, ..plain_usage() }
}

#[test]
fn gl_inner_reports_probed_alignments() {
    let inner = RafxDeviceContextGlInner::new(8).unwrap();
    assert_eq!(inner.device_info.min_uniform_buffer_offset_alignment, 8);
    assert_eq!(inner.device_info.min_storage_buffer_offset_alignment, 8);
    assert_eq!(inner.device_info.upload_buffer_texture_alignment, 8);
    assert_eq!(inner.device_info.upload_buffer_texture_row_alignment, 8);
    assert!(!inner.device_info.supports_clamp_to_border_color);
    assert_eq!(RafxDeviceContextGlInner::new(0).unwrap_err(), RafxError::DeviceLost);
}

#[test]
fn gl_backend_only_offers_a_graphics_queue() {
    let device_context = gl_context();
    let queue = device_context.create_queue(RafxQueueType::Graphics).unwrap();
    assert_eq!(queue.queue_type(), RafxQueueType::Graphics);
    assert_eq!(
        device_context.create_queue(RafxQueueType::Compute).unwrap_err(),
        RafxError::UnsupportedFeature
    );
    assert_eq!(
        device_context.create_queue(RafxQueueType::Transfer).unwrap_err(),
        RafxError::UnsupportedFeature
    );
}

#[test]
fn other_backends_offer_every_queue_family() {
    for device_context in [
        RafxDeviceContext::Vk(RafxDeviceContextVulkan::new()),
        RafxDeviceContext::Metal(RafxDeviceContextMetal::new()),
        empty_context(),
    ] {
        for queue_type in
            [RafxQueueType::Graphics, RafxQueueType::Compute, RafxQueueType::Transfer]
        {
            assert!(device_context.create_queue(queue_type).is_ok());
        }
    }
}

#[test]
fn find_supported_format_returns_first_qualifying_candidate() {
    // On GL the first candidate is not color-renderable, so the crafted
    // list must yield the second entry: order sensitivity.
    let device_context = gl_context();
    let candidates = [RafxFormat::R16G16B16A16Sfloat, RafxFormat::B8G8R8A8Unorm];
    let found = device_context.find_supported_format(&candidates, color_usage());
    assert_eq!(found, Some(RafxFormat::B8G8R8A8Unorm));

    // On Vulkan the first candidate already qualifies.
    let device_context = RafxDeviceContext::Vk(RafxDeviceContextVulkan::new());
    let found = device_context.find_supported_format(&candidates, color_usage());
    assert_eq!(found, Some(RafxFormat::R16G16B16A16Sfloat));
}

#[test]
fn find_supported_format_reports_no_match_as_absence() {
    let device_context = empty_context();
    let candidates = [RafxFormat::D32Sfloat, RafxFormat::D24UnormS8Uint];
    assert_eq!(device_context.find_supported_format(&candidates, color_usage()), None);
    assert_eq!(device_context.find_supported_format(&[], color_usage()), None);
}

#[test]
fn find_supported_sample_count_returns_first_supported() {
    let device_context = RafxDeviceContext::Metal(RafxDeviceContextMetal::new());
    let candidates = [
        RafxSampleCount::SampleCount16,
        RafxSampleCount::SampleCount8,
        RafxSampleCount::SampleCount4,
    ];
    assert_eq!(
        device_context.find_supported_sample_count(&candidates),
        Some(RafxSampleCount::SampleCount4)
    );
    assert_eq!(
        device_context.find_supported_sample_count(&[RafxSampleCount::SampleCount16]),
        None
    );
}

fn basic_buffer_def() -> RafxBufferDef {
    RafxBufferDef {
        size: 1024,
        alignment: 0,
        memory_usage: RafxMemoryUsage::GpuOnly,
        queue_type: RafxQueueType::Graphics,
        resource_type: plain_usage(),
        always_mapped: false,
    }
}

#[test]
fn buffer_creation_validates_the_definition() {
    let device_context = empty_context();
    let buffer = device_context.create_buffer(&basic_buffer_def()).unwrap();
    assert_eq!(buffer.buffer_def().size, 1024);

    let bad = RafxBufferDef { size: 0, ..basic_buffer_def() };
    assert_eq!(device_context.create_buffer(&bad).unwrap_err(), RafxError::InvalidDefinition);

    let bad = RafxBufferDef { alignment: 3, ..basic_buffer_def() };
    assert_eq!(device_context.create_buffer(&bad).unwrap_err(), RafxError::InvalidDefinition);
}

#[test]
fn uniform_buffer_alignment_honors_device_limit() {
    // The Empty backend reports a 256-byte uniform alignment.
    let device_context = empty_context();
    let uniform = RafxResourceType { uniform_buffer: true, ..plain_usage() };
    let ok = RafxBufferDef { alignment: 256, resource_type: uniform, ..basic_buffer_def() };
    assert!(device_context.create_buffer(&ok).is_ok());
    let bad = RafxBufferDef { alignment: 64, resource_type: uniform, ..basic_buffer_def() };
    assert_eq!(device_context.create_buffer(&bad).unwrap_err(), RafxError::InvalidDefinition);
    // The default placement is always acceptable.
    let default_placed = RafxBufferDef { alignment: 0, resource_type: uniform, ..basic_buffer_def() };
    assert!(device_context.create_buffer(&default_placed).is_ok());
}

fn basic_texture_def() -> RafxTextureDef {
    RafxTextureDef {
        extents: RafxExtents3D { width: 256, height: 256, depth: 1 },
        array_length: 1,
        mip_count: 1,
        format: RafxFormat::R8G8B8A8Unorm,
        sample_count: RafxSampleCount::SampleCount1,
        resource_type: plain_usage(),
    }
}

#[test]
fn texture_creation_validates_mip_chain() {
    let device_context = empty_context();
    // 256 pixels admit exactly 9 mip levels.
    let ok = RafxTextureDef { mip_count: 9, ..basic_texture_def() };
    assert!(device_context.create_texture(&ok).is_ok());
    let bad = RafxTextureDef { mip_count: 10, ..basic_texture_def() };
    assert_eq!(device_context.create_texture(&bad).unwrap_err(), RafxError::InvalidDefinition);
    let bad = RafxTextureDef { mip_count: 0, ..basic_texture_def() };
    assert_eq!(device_context.create_texture(&bad).unwrap_err(), RafxError::InvalidDefinition);
    let bad = RafxTextureDef {
        extents: RafxExtents3D { width: 0, height: 4, depth: 1 },
        ..basic_texture_def()
    };
    assert_eq!(device_context.create_texture(&bad).unwrap_err(), RafxError::InvalidDefinition);
}

#[test]
fn texture_creation_validates_format_and_sampling() {
    // Storage images do not exist on the GL backend.
    let device_context = gl_context();
    let bad = RafxTextureDef {
        resource_type: RafxResourceType { texture_read_write: true, ..plain_usage() },
        ..basic_texture_def()
    };
    assert_eq!(device_context.create_texture(&bad).unwrap_err(), RafxError::UnsupportedFormat);

    // A 16-sample render target is beyond Vulkan's table here.
    let device_context = RafxDeviceContext::Vk(RafxDeviceContextVulkan::new());
    let bad = RafxTextureDef {
        sample_count: RafxSampleCount::SampleCount16,
        resource_type: color_usage(),
        ..basic_texture_def()
    };
    assert_eq!(device_context.create_texture(&bad).unwrap_err(), RafxError::UnsupportedFeature);

    // Multisampling requires a single-mip render target.
    let device_context = empty_context();
    let bad = RafxTextureDef {
        sample_count: RafxSampleCount::SampleCount4,
        mip_count: 1,
        ..basic_texture_def()
    };
    assert_eq!(device_context.create_texture(&bad).unwrap_err(), RafxError::InvalidDefinition);
    let ok = RafxTextureDef {
        sample_count: RafxSampleCount::SampleCount4,
        resource_type: color_usage(),
        ..basic_texture_def()
    };
    assert!(device_context.create_texture(&ok).is_ok());
}

fn basic_sampler_def() -> RafxSamplerDef {
    RafxSamplerDef {
        min_filter: RafxFilterType::Linear,
        mag_filter: RafxFilterType::Linear,
        mip_map_mode: RafxMipMapMode::Linear,
        address_mode_u: RafxAddressMode::Repeat,
        address_mode_v: RafxAddressMode::Repeat,
        address_mode_w: RafxAddressMode::Repeat,
    }
}

#[test]
fn clamp_to_border_needs_device_support() {
    let bordered = RafxSamplerDef {
        address_mode_v: RafxAddressMode::ClampToBorder,
        ..basic_sampler_def()
    };
    // The GL device reports no border color support.
    assert_eq!(
        gl_context().create_sampler(&bordered).unwrap_err(),
        RafxError::UnsupportedFeature
    );
    assert!(empty_context().create_sampler(&bordered).is_ok());
    assert!(gl_context().create_sampler(&basic_sampler_def()).is_ok());
}

#[test]
fn shader_stage_sets_are_validated() {
    let device_context = empty_context();
    let vertex = RafxShaderStageDef { stage: RafxShaderStage::Vertex };
    let fragment = RafxShaderStageDef { stage: RafxShaderStage::Fragment };
    let compute = RafxShaderStageDef { stage: RafxShaderStage::Compute };

    let shader = device_context.create_shader(vec![vertex, fragment]).unwrap();
    assert_eq!(shader.stage_count, 2);
    assert!(device_context.create_shader(vec![compute]).is_ok());

    assert_eq!(
        device_context.create_shader(vec![]).unwrap_err(),
        RafxError::InvalidDefinition
    );
    assert_eq!(
        device_context.create_shader(vec![vertex, vertex]).unwrap_err(),
        RafxError::InvalidDefinition
    );
    assert_eq!(
        device_context.create_shader(vec![vertex, compute]).unwrap_err(),
        RafxError::InvalidDefinition
    );
    assert_eq!(
        device_context.create_shader(vec![fragment]).unwrap_err(),
        RafxError::InvalidDefinition
    );
}

#[test]
fn shader_modules_must_hold_whole_words_on_vulkan() {
    let vk = RafxDeviceContext::Vk(RafxDeviceContextVulkan::new());
    let module = vk.create_shader_module(RafxShaderModuleDef { bytecode: vec![0; 8] }).unwrap();
    assert_eq!(module.bytecode_len, 8);
    assert_eq!(
        vk.create_shader_module(RafxShaderModuleDef { bytecode: vec![0; 6] }).unwrap_err(),
        RafxError::InvalidDefinition
    );
    // Other backends take any nonempty artifact.
    assert!(empty_context()
        .create_shader_module(RafxShaderModuleDef { bytecode: vec![0; 6] })
        .is_ok());
    assert_eq!(
        empty_context()
            .create_shader_module(RafxShaderModuleDef { bytecode: vec![] })
            .unwrap_err(),
        RafxError::InvalidDefinition
    );
}

#[test]
fn root_signatures_stay_within_common_limits() {
    let device_context = empty_context();
    let ok = RafxRootSignatureDef {
        descriptor_set_binding_counts: vec![2, 4, 1],
        push_constant_bytes: 128,
    };
    let signature = device_context.create_root_signature(&ok).unwrap();
    assert_eq!(signature.descriptor_set_binding_counts, vec![2, 4, 1]);

    let bad = RafxRootSignatureDef {
        descriptor_set_binding_counts: vec![1, 1, 1, 1, 1],
        push_constant_bytes: 0,
    };
    assert_eq!(
        device_context.create_root_signature(&bad).unwrap_err(),
        RafxError::InvalidDefinition
    );
    let bad = RafxRootSignatureDef {
        descriptor_set_binding_counts: vec![1],
        push_constant_bytes: 129,
    };
    assert_eq!(
        device_context.create_root_signature(&bad).unwrap_err(),
        RafxError::InvalidDefinition
    );
    let bad = RafxRootSignatureDef {
        descriptor_set_binding_counts: vec![1, 0],
        push_constant_bytes: 0,
    };
    assert_eq!(
        device_context.create_root_signature(&bad).unwrap_err(),
        RafxError::InvalidDefinition
    );
}

#[test]
fn descriptor_set_arrays_name_a_bindable_set() {
    let device_context = empty_context();
    let ok = RafxDescriptorSetArrayDef { set_index: 3, array_length: 16 };
    assert!(device_context.create_descriptor_set_array(&ok).is_ok());
    let bad = RafxDescriptorSetArrayDef { set_index: 4, array_length: 16 };
    assert_eq!(
        device_context.create_descriptor_set_array(&bad).unwrap_err(),
        RafxError::InvalidDefinition
    );
    let bad = RafxDescriptorSetArrayDef { set_index: 0, array_length: 0 };
    assert_eq!(
        device_context.create_descriptor_set_array(&bad).unwrap_err(),
        RafxError::InvalidDefinition
    );
}

fn basic_pipeline_def() -> RafxGraphicsPipelineDef {
    RafxGraphicsPipelineDef {
        color_formats: vec![RafxFormat::B8G8R8A8Srgb],
        depth_stencil_format: RafxFormat::D32Sfloat,
        sample_count: RafxSampleCount::SampleCount4,
        primitive_topology: RafxPrimitiveTopology::TriangleList,
    }
}

#[test]
fn graphics_pipelines_validate_attachments_and_sampling() {
    let device_context = empty_context();
    let pipeline = device_context.create_graphics_pipeline(&basic_pipeline_def()).unwrap();
    assert_eq!(pipeline.pipeline_type(), RafxPipelineType::Graphics);

    let bad = RafxGraphicsPipelineDef {
        color_formats: vec![],
        depth_stencil_format: RafxFormat::Undefined,
        ..basic_pipeline_def()
    };
    assert_eq!(
        device_context.create_graphics_pipeline(&bad).unwrap_err(),
        RafxError::InvalidDefinition
    );

    // D24S8 is not depth-capable on Metal.
    let metal = RafxDeviceContext::Metal(RafxDeviceContextMetal::new());
    let bad = RafxGraphicsPipelineDef {
        depth_stencil_format: RafxFormat::D24UnormS8Uint,
        sample_count: RafxSampleCount::SampleCount1,
        ..basic_pipeline_def()
    };
    assert_eq!(
        metal.create_graphics_pipeline(&bad).unwrap_err(),
        RafxError::UnsupportedFormat
    );

    // A depth format in the color list is unusable.
    let bad = RafxGraphicsPipelineDef {
        color_formats: vec![RafxFormat::D32Sfloat],
        ..basic_pipeline_def()
    };
    assert_eq!(
        device_context.create_graphics_pipeline(&bad).unwrap_err(),
        RafxError::UnsupportedFormat
    );

    // 16 samples are beyond Metal's table.
    let bad = RafxGraphicsPipelineDef {
        sample_count: RafxSampleCount::SampleCount16,
        ..basic_pipeline_def()
    };
    assert_eq!(
        metal.create_graphics_pipeline(&bad).unwrap_err(),
        RafxError::UnsupportedFeature
    );
}

#[test]
fn compute_pipelines_need_a_compute_stage() {
    let device_context = empty_context();
    let ok = RafxComputePipelineDef { stage: RafxShaderStage::Compute };
    let pipeline = device_context.create_compute_pipeline(&ok).unwrap();
    assert_eq!(pipeline.pipeline_type(), RafxPipelineType::Compute);
    let bad = RafxComputePipelineDef { stage: RafxShaderStage::Vertex };
    assert_eq!(
        device_context.create_compute_pipeline(&bad).unwrap_err(),
        RafxError::InvalidDefinition
    );
}

#[test]
fn facade_reports_its_backend_and_device_info() {
    let device_context = empty_context();
    let info = device_context.device_info();
    assert_eq!(info.min_uniform_buffer_offset_alignment, 256);
    assert!(info.supports_clamp_to_border_color);
    let cloned = device_context.clone();
    assert_eq!(
        cloned.device_info().min_uniform_buffer_offset_alignment,
        info.min_uniform_buffer_offset_alignment
    );
}
