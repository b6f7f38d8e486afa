use std::cell::Cell;

use envision_gpu_core::error::CoreError;
use envision_gpu_core::gpu_core::{
    AppliedEffect, DeviceRequest, EffectCommand, EffectParameters, GpuCore, LayerCommand,
    RenderParams,
};
use envision_gpu_core::scalar::Scalar;
use envision_gpu_core::texture_manager::{SurfaceDescriptor, TextureSize};

fn scalar(value: f32) -> Scalar {
    Scalar::from_bits(value.to_bits())
}

fn effect(effect_id: &str, intensity: f32, blend: f32) -> EffectCommand {
    EffectCommand {
        effect_id: effect_id.to_string(),
        parameters: EffectParameters { intensity: scalar(intensity), blend: scalar(blend) },
    }
}

fn layer(layer_id: &str, effect_stack: Vec<EffectCommand>) -> LayerCommand {
    LayerCommand { layer_id: layer_id.to_string(), effect_stack }
}

fn always(_: &u8, described: &SurfaceDescriptor) -> Result<u32, CoreError> {
    Ok(described.size.width)
}

fn ready_core() -> GpuCore<u8, u16, u32> {
    match GpuCore::initialize(DeviceRequest::Granted { device: 1u8, queue: 2u16 }, always) {
        Ok(core) => core,
        Err(error) => panic!("bring-up failed: {:?}", error),
    }
}

fn names(applied: &Vec<AppliedEffect>) -> Vec<(String, String)> {
    let mut out = Vec::new();
    for one in applied {
        out.push((one.layer_id.clone(), one.effect_id.clone()));
    }
    out
}

#[test]
fn default_params_are_the_default_frame() {
    let params = RenderParams::default();
    assert_eq!(params.target_label, "framebuffer");
    assert_eq!(params.width, 1920);
    assert_eq!(params.height, 1080);
    assert_eq!(f32::from_bits(params.time.to_bits()), 0.0);
    assert!(params.layers.is_empty());
}

#[test]
fn initialize_without_adapter_is_adapter_unavailable() {
    let made: Result<GpuCore<u8, u16, u32>, CoreError> =
        GpuCore::initialize(DeviceRequest::NoAdapter, always);
    match made {
        Err(error) => assert_eq!(error, CoreError::AdapterUnavailable),
        Ok(_) => panic!("no adapter, no core"),
    }
}

#[test]
fn initialize_with_refused_device_is_device_request_failed() {
    let made: Result<GpuCore<u8, u16, u32>, CoreError> = GpuCore::initialize(
        DeviceRequest::Refused { reason: "limits too high".to_string() },
        always,
    );
    match made {
        Err(error) => assert_eq!(
            error,
            CoreError::DeviceRequestFailed { reason: "limits too high".to_string() }
        ),
        Ok(_) => panic!("refused device, no core"),
    }
}

#[test]
fn initialize_registers_the_default_target() {
    let core = ready_core();
    assert_eq!(*core.device(), 1u8);
    assert_eq!(*core.queue(), 2u16);
    let handle = core.texture_manager().get("framebuffer").unwrap();
    assert_eq!(handle.size, TextureSize { width: 1920, height: 1080, depth_or_array_layers: 1 });
    assert_eq!(handle.allocation, 1920);
    assert_eq!(core.texture_manager().allocation_count(), 1);
    assert_eq!(core.texture_manager().release_count(), 0);
    assert!(core.applied_effects().is_empty());
}

#[test]
fn initialize_hands_on_the_allocators_error() {
    let made: Result<GpuCore<u8, u16, u32>, CoreError> = GpuCore::initialize(
        DeviceRequest::Granted { device: 1u8, queue: 2u16 },
        |_: &u8, _: &SurfaceDescriptor| -> Result<u32, CoreError> {
            Err(CoreError::DeviceRequestFailed { reason: "lost".to_string() })
        },
    );
    match made {
        Err(error) => {
            assert_eq!(error, CoreError::DeviceRequestFailed { reason: "lost".to_string() })
        }
        Ok(_) => panic!("the default target could not be allocated"),
    }
}

#[test]
fn render_applies_effects_in_declared_order() {
    let mut core = ready_core();
    let params = RenderParams {
        layers: vec![
            layer("A", vec![effect("e1", 0.5, 1.0), effect("e2", 1.0, 0.25)]),
            layer("B", vec![effect("e3", 2.0, 2.0)]),
        ],
        ..RenderParams::default()
    };
    assert_eq!(core.render_frame(always, params), Ok(()));
    assert_eq!(
        names(core.applied_effects()),
        vec![
            ("A".to_string(), "e1".to_string()),
            ("A".to_string(), "e2".to_string()),
            ("B".to_string(), "e3".to_string()),
        ]
    );
    let applied = core.applied_effects();
    assert_eq!(f32::from_bits(applied[0].parameters.intensity.to_bits()), 0.5);
    assert_eq!(f32::from_bits(applied[0].parameters.blend.to_bits()), 1.0);
    assert_eq!(f32::from_bits(applied[1].parameters.blend.to_bits()), 0.25);
    assert_eq!(f32::from_bits(applied[2].parameters.intensity.to_bits()), 2.0);
}

#[test]
fn render_keeps_repeated_and_empty_layers_in_place() {
    let mut core = ready_core();
    let params = RenderParams {
        layers: vec![
            layer("top", vec![effect("blur", 1.0, 1.0)]),
            layer("empty", vec![]),
            layer("top", vec![effect("blur", 1.0, 1.0), effect("blur", 1.0, 1.0)]),
        ],
        ..RenderParams::default()
    };
    assert_eq!(core.render_frame(always, params), Ok(()));
    assert_eq!(
        names(core.applied_effects()),
        vec![
            ("top".to_string(), "blur".to_string()),
            ("top".to_string(), "blur".to_string()),
            ("top".to_string(), "blur".to_string()),
        ]
    );
}

#[test]
fn unknown_effect_does_not_fail_the_frame() {
    let mut core = ready_core();
    let params = RenderParams {
        layers: vec![layer("A", vec![effect("no-such-effect", 1.0, 1.0), effect("", 0.0, 0.0)])],
        ..RenderParams::default()
    };
    assert_eq!(core.render_frame(always, params), Ok(()));
    assert_eq!(core.applied_effects().len(), 2);
    assert_eq!(core.applied_effects()[0].effect_id, "no-such-effect");
}

#[test]
fn render_into_the_default_target_does_not_allocate() {
    let calls = Cell::new(0u32);
    let mut core = ready_core();
    let outcome = core.render_frame(
        |_: &u8, _: &SurfaceDescriptor| -> Result<u32, CoreError> {
            calls.set(calls.get() + 1);
            Ok(0)
        },
        RenderParams::default(),
    );
    assert_eq!(outcome, Ok(()));
    assert_eq!(calls.get(), 0);
    assert_eq!(core.texture_manager().allocation_count(), 1);
    assert!(core.applied_effects().is_empty());
}

#[test]
fn render_ensures_the_target_with_depth_one() {
    let mut core = ready_core();
    let seen = Cell::new((0u8, 0u32, 0u32, 0u32));
    let params = RenderParams {
        target_label: "preview".to_string(),
        width: 320,
        height: 200,
        ..RenderParams::default()
    };
    let outcome = core.render_frame(
        |device: &u8, described: &SurfaceDescriptor| -> Result<u32, CoreError> {
            assert_eq!(described.label, "preview");
            seen.set((*device, described.size.width, described.size.height, described.size.depth_or_array_layers));
            Ok(77)
        },
        params,
    );
    assert_eq!(outcome, Ok(()));
    assert_eq!(seen.get(), (1, 320, 200, 1));
    assert_eq!(core.texture_manager().get("preview").unwrap().allocation, 77);
    assert!(core.texture_manager().get("framebuffer").is_ok());
    assert_eq!(core.texture_manager().allocation_count(), 2);
}

#[test]
fn failed_target_aborts_the_frame() {
    let mut core = ready_core();
    let first = RenderParams {
        layers: vec![layer("A", vec![effect("e1", 1.0, 1.0)])],
        ..RenderParams::default()
    };
    assert_eq!(core.render_frame(always, first), Ok(()));
    assert_eq!(core.applied_effects().len(), 1);
    let second = RenderParams {
        target_label: "broken".to_string(),
        layers: vec![layer("A", vec![effect("e1", 1.0, 1.0)])],
        ..RenderParams::default()
    };
    let outcome = core.render_frame(
        |_: &u8, _: &SurfaceDescriptor| -> Result<u32, CoreError> {
            Err(CoreError::DeviceRequestFailed { reason: "device lost".to_string() })
        },
        second,
    );
    assert_eq!(
        outcome,
        Err(CoreError::DeviceRequestFailed { reason: "device lost".to_string() })
    );
    assert!(core.applied_effects().is_empty());
    assert!(core.texture_manager().get("broken").is_err());
    assert!(core.texture_manager().get("framebuffer").is_ok());
}

#[test]
fn trace_is_of_the_latest_frame_only() {
    let mut core = ready_core();
    let first = RenderParams {
        layers: vec![layer("A", vec![effect("e1", 1.0, 1.0), effect("e2", 1.0, 1.0)])],
        ..RenderParams::default()
    };
    assert_eq!(core.render_frame(always, first), Ok(()));
    let second = RenderParams {
        layers: vec![layer("B", vec![effect("e9", 1.0, 1.0)])],
        ..RenderParams::default()
    };
    assert_eq!(core.render_frame(always, second), Ok(()));
    assert_eq!(names(core.applied_effects()), vec![("B".to_string(), "e9".to_string())]);
}

#[test]
fn default_parameters_are_one() {
    let parameters = EffectParameters::default();
    assert_eq!(f32::from_bits(parameters.intensity.to_bits()), 1.0);
    assert_eq!(f32::from_bits(parameters.blend.to_bits()), 1.0);
    assert_eq!(parameters, EffectParameters::with_defaults(None, None));
    let given = EffectParameters::with_defaults(Some(scalar(0.5)), None);
    assert_eq!(f32::from_bits(given.intensity.to_bits()), 0.5);
    assert_eq!(f32::from_bits(given.blend.to_bits()), 1.0);
}

#[test]
fn effect_steps_record_and_never_fail() {
    let mut core = ready_core();
    let owner = layer("A", vec![effect("known", 1.0, 1.0), effect("no-such-effect", 0.5, 0.5)]);
    assert_eq!(core.apply_effect(&owner, &effect("anything at all", 3.0, 0.0)), Ok(()));
    assert_eq!(core.process_layer(&owner), Ok(()));
    assert_eq!(
        names(core.applied_effects()),
        vec![
            ("A".to_string(), "anything at all".to_string()),
            ("A".to_string(), "known".to_string()),
            ("A".to_string(), "no-such-effect".to_string()),
        ]
    );
    assert_eq!(core.texture_manager().allocation_count(), 1);
    assert!(core.texture_manager().get("framebuffer").is_ok());
}
