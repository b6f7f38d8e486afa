use std::cell::Cell;

use envision_gpu_core::error::CoreError;
use envision_gpu_core::gpu_core::{DeviceRequest, GpuCore, RenderParams};
use envision_gpu_core::texture_manager::{
    SurfaceDescriptor, SurfaceDimension, SurfaceFormat, SurfaceUsage, SurfaceView,
    TextureManager, TextureSize,
};

struct Surface {
    texture: wgpu::Texture,
    _view: wgpu::TextureView,
}

type Core = GpuCore<wgpu::Device, wgpu::Queue, Surface>;

fn acquire() -> DeviceRequest<wgpu::Device, wgpu::Queue> {
    let instance = wgpu::Instance::default();
    let adapter = pollster::block_on(instance.request_adapter(&wgpu::RequestAdapterOptions {
        power_preference: wgpu::PowerPreference::HighPerformance,
        compatible_surface: None,
        force_fallback_adapter: false,
    }));
    let adapter = match adapter {
        Some(adapter) => adapter,
        None => return DeviceRequest::NoAdapter,
    };
    let granted = pollster::block_on(adapter.request_device(
        &wgpu::DeviceDescriptor {
            label: Some("test-device"),
            features: wgpu::Features::empty(),
            limits: wgpu::Limits::downlevel_defaults(),
        },
        None,
    ));
    match granted {
        Ok((device, queue)) => DeviceRequest::Granted { device, queue },
        Err(error) => DeviceRequest::Refused { reason: error.to_string() },
    }
}

fn format(format: &SurfaceFormat) -> wgpu::TextureFormat {
    match format {
        SurfaceFormat::Rgba8Unorm => wgpu::TextureFormat::Rgba8Unorm,
        SurfaceFormat::Rgba8UnormSrgb => wgpu::TextureFormat::Rgba8UnormSrgb,
    }
}

fn dimension(dimension: SurfaceDimension) -> wgpu::TextureDimension {
    match dimension {
        SurfaceDimension::D1 => wgpu::TextureDimension::D1,
        SurfaceDimension::D2 => wgpu::TextureDimension::D2,
        SurfaceDimension::D3 => wgpu::TextureDimension::D3,
    }
}

fn usage(usage: SurfaceUsage) -> wgpu::TextureUsages {
    let mut flags = wgpu::TextureUsages::empty();
    flags.set(wgpu::TextureUsages::COPY_SRC, usage.copy_src);
    flags.set(wgpu::TextureUsages::COPY_DST, usage.copy_dst);
    flags.set(wgpu::TextureUsages::TEXTURE_BINDING, usage.texture_binding);
    flags.set(wgpu::TextureUsages::STORAGE_BINDING, usage.storage_binding);
    flags.set(wgpu::TextureUsages::RENDER_ATTACHMENT, usage.render_attachment);
    flags
}

/// Allocates exactly what the descriptor asks for, and reports what the
/// device objects to as an error.
fn allocate(device: &wgpu::Device, described: &SurfaceDescriptor) -> Result<Surface, CoreError> {
    let view_formats: Vec<wgpu::TextureFormat> = described.view_formats.iter().map(format).collect();
    device.push_error_scope(wgpu::ErrorFilter::OutOfMemory);
    device.push_error_scope(wgpu::ErrorFilter::Validation);
    let texture = device.create_texture(&wgpu::TextureDescriptor {
        label: Some(described.label.as_str()),
        size: wgpu::Extent3d {
            width: described.size.width,
            height: described.size.height,
            depth_or_array_layers: described.size.depth_or_array_layers,
        },
        mip_level_count: described.mip_level_count,
        sample_count: described.sample_count,
        dimension: dimension(described.dimension),
        format: format(&described.format),
        usage: usage(described.usage),
        view_formats: &view_formats,
    });
    let view = match described.view {
        SurfaceView::Default => texture.create_view(&wgpu::TextureViewDescriptor::default()),
    };
    let invalid = pollster::block_on(device.pop_error_scope());
    let exhausted = pollster::block_on(device.pop_error_scope());
    match invalid.or(exhausted) {
        Some(error) => Err(CoreError::DeviceRequestFailed { reason: error.to_string() }),
        None => Ok(Surface { texture, _view: view }),
    }
}

/// On a machine without any adapter there is no device to test on; what is
/// left to hold is that the bring-up says so.
fn assert_missing_adapter_is_reported() {
    let made: Result<Core, CoreError> = GpuCore::initialize(DeviceRequest::NoAdapter, allocate);
    match made {
        Err(error) => assert_eq!(error, CoreError::AdapterUnavailable),
        Ok(_) => panic!("no adapter, no core"),
    }
}

fn device() -> Option<(wgpu::Device, wgpu::Queue)> {
    match acquire() {
        DeviceRequest::Granted { device, queue } => Some((device, queue)),
        DeviceRequest::NoAdapter => {
            assert_missing_adapter_is_reported();
            None
        }
        DeviceRequest::Refused { reason } => panic!("device refused: {}", reason),
    }
}

fn ready_core() -> Option<Core> {
    let (device, queue) = device()?;
    match GpuCore::initialize(DeviceRequest::Granted { device, queue }, allocate) {
        Ok(core) => Some(core),
        Err(error) => panic!("bring-up failed: {:?}", error),
    }
}

#[test]
fn gpu_core_comes_up_on_a_device() {
    let core = match ready_core() {
        Some(core) => core,
        None => return,
    };
    let handle = core.texture_manager().get("framebuffer").unwrap();
    assert_eq!(handle.size, TextureSize { width: 1920, height: 1080, depth_or_array_layers: 1 });
    let texture = &handle.allocation.texture;
    assert_eq!(texture.width(), 1920);
    assert_eq!(texture.height(), 1080);
    assert_eq!(texture.depth_or_array_layers(), 1);
    assert_eq!(texture.mip_level_count(), 1);
    assert_eq!(texture.sample_count(), 1);
    assert_eq!(texture.dimension(), wgpu::TextureDimension::D2);
    assert_eq!(texture.format(), wgpu::TextureFormat::Rgba8UnormSrgb);
    assert_eq!(
        texture.usage(),
        wgpu::TextureUsages::TEXTURE_BINDING
            | wgpu::TextureUsages::COPY_DST
            | wgpu::TextureUsages::STORAGE_BINDING
    );
    assert_eq!(core.texture_manager().allocation_count(), 1);
}

#[test]
fn gpu_textures_are_reused_and_replaced() {
    let (device, _queue) = match device() {
        Some(granted) => granted,
        None => return,
    };
    let calls = Cell::new(0u32);
    let counting = |device: &wgpu::Device, described: &SurfaceDescriptor| {
        calls.set(calls.get() + 1);
        allocate(device, described)
    };
    let small = TextureSize { width: 64, height: 32, depth_or_array_layers: 1 };
    let large = TextureSize { width: 128, height: 64, depth_or_array_layers: 1 };
    let mut manager: TextureManager<Surface> = TextureManager::new();
    assert_eq!(manager.ensure_texture(&device, &counting, "target", small), Ok(()));
    assert_eq!(manager.ensure_texture(&device, &counting, "target", small), Ok(()));
    assert_eq!(calls.get(), 1);
    assert_eq!(manager.get("target").unwrap().allocation.texture.width(), 64);
    assert_eq!(manager.ensure_texture(&device, &counting, "target", large), Ok(()));
    assert_eq!(calls.get(), 2);
    assert_eq!(manager.allocation_count(), 2);
    assert_eq!(manager.release_count(), 1);
    let handle = manager.get("target").unwrap();
    assert_eq!(handle.size, large);
    assert_eq!(handle.allocation.texture.width(), 128);
    assert_eq!(handle.allocation.texture.height(), 64);
}

#[test]
fn gpu_validation_error_fails_the_frame() {
    let mut core = match ready_core() {
        Some(core) => core,
        None => return,
    };
    let params = RenderParams {
        target_label: "flat".to_string(),
        width: 0,
        height: 16,
        ..RenderParams::default()
    };
    let outcome = core.render_frame(allocate, params);
    match outcome {
        Err(CoreError::DeviceRequestFailed { reason }) => {
            assert!(reason.contains("Validation"), "unexpected reason: {}", reason)
        }
        other => panic!("unexpected outcome: {:?}", other),
    }
    assert!(core.texture_manager().get("flat").is_err());
    assert!(core.texture_manager().get("framebuffer").is_ok());
    assert_eq!(core.texture_manager().allocation_count(), 1);
}
