//! The render core: it owns the device, the queue and the resource manager,
//! takes one render request per frame, ensures the frame's target and applies
//! the effects of the request in their declared order.

use vstd::prelude::*;
use crate::error::CoreError;
use crate::scalar::Scalar;
use crate::texture_manager::{accepts, yields, SurfaceDescriptor, TextureManager, TextureSize};

verus! {

/// Width of the default frame.
pub const DEFAULT_WIDTH: u32 = 1920;

/// Height of the default frame.
pub const DEFAULT_HEIGHT: u32 = 1080;

/// Numeric parameters of one effect.
#[derive(Clone, Copy, Debug, PartialEq, Eq, Structural)]
pub struct EffectParameters {
    pub intensity: Scalar,
    pub blend: Scalar,
}

/// One effect of a layer's stack.
#[derive(Debug, Clone)]
pub struct EffectCommand {
    pub effect_id: String,
    pub parameters: EffectParameters,
}

/// One layer of a frame with its effects, bottom of the stack first.
#[derive(Debug, Clone)]
pub struct LayerCommand {
    pub layer_id: String,
    pub effect_stack: Vec<EffectCommand>,
}

/// Everything one frame asks for.
#[derive(Debug, Clone)]
pub struct RenderParams {
    pub target_label: String,
    pub width: u32,
    pub height: u32,
    pub time: Scalar,
    pub layers: Vec<LayerCommand>,
}

/// One effect application as the core recorded it.
#[derive(Debug, Clone)]
pub struct AppliedEffect {
    pub layer_id: String,
    pub effect_id: String,
    pub parameters: EffectParameters,
}

/// What an effect application says: which effect, on which layer, with which
/// parameters.
pub ghost struct EffectRecord {
    pub layer: Seq<char>,
    pub effect: Seq<char>,
    pub parameters: EffectParameters,
}

impl View for AppliedEffect {
    type V = EffectRecord;

    open spec fn view(&self) -> EffectRecord {
        EffectRecord {
            layer: self.layer_id@,
            effect: self.effect_id@,
            parameters: self.parameters,
        }
    }
}

/// The application of `effect` on `layer`.
pub open spec fn effect_record(layer: LayerCommand, effect: EffectCommand) -> EffectRecord {
    EffectRecord { layer: layer.layer_id@, effect: effect.effect_id@, parameters: effect.parameters }
}

/// The applications one layer calls for: its effects in stack order.
pub open spec fn layer_trace(layer: LayerCommand) -> Seq<EffectRecord> {
    Seq::new(layer.effect_stack@.len(), |i: int| effect_record(layer, layer.effect_stack@[i]))
}

/// The applications a frame calls for: layer after layer in declared order,
/// each layer's effects in stack order.
pub open spec fn frame_trace(layers: Seq<LayerCommand>) -> Seq<EffectRecord>
    decreases layers.len(),
{
    if layers.len() == 0 {
        Seq::empty()
    } else {
        frame_trace(layers.drop_last()) + layer_trace(layers.last())
    }
}

/// The surface size a frame of the given pixel dimensions needs.
pub open spec fn frame_size(width: u32, height: u32) -> TextureSize {
    TextureSize { width, height, depth_or_array_layers: 1 }
}

impl EffectParameters {
    /// The parameters given, with one in place of each that is absent.
    pub fn with_defaults(intensity: Option<Scalar>, blend: Option<Scalar>) -> (parameters:
        EffectParameters)
        ensures
            parameters.intensity == (match intensity {
                Some(given) => given,
                None => Scalar { bits: crate::scalar::ONE_BITS },
            }),
            parameters.blend == (match blend {
                Some(given) => given,
                None => Scalar { bits: crate::scalar::ONE_BITS },
            }),
    {
        EffectParameters {
            intensity: Scalar::or_default(intensity, Scalar::one()),
            blend: Scalar::or_default(blend, Scalar::one()),
        }
    }
}

impl Default for EffectParameters {
    /// The parameters of an effect that was given none: both are one.
    fn default() -> (parameters: EffectParameters)
        ensures
            parameters.intensity.bits == crate::scalar::ONE_BITS,
            parameters.blend.bits == crate::scalar::ONE_BITS,
    {
        EffectParameters { intensity: Scalar::one(), blend: Scalar::one() }
    }
}

impl Default for RenderParams {
    /// A frame for the default target at the default size, at time zero and
    /// without layers.
    fn default() -> (params: RenderParams)
        ensures
            params.target_label@ == "framebuffer"@,
            params.width == DEFAULT_WIDTH,
            params.height == DEFAULT_HEIGHT,
            params.time.bits == crate::scalar::ZERO_BITS,
            params.layers@.len() == 0,
    {
        RenderParams {
            target_label: "framebuffer".to_owned(),
            width: DEFAULT_WIDTH,
            height: DEFAULT_HEIGHT,
            time: Scalar::zero(),
            layers: Vec::new(),
        }
    }
}

/// What came of asking the system for a GPU adapter and, from it, for a
/// device and its queue.
pub enum DeviceRequest<D, Q> {
    /// No compatible adapter was found.
    NoAdapter,
    /// An adapter was found and refused to hand out a device.
    Refused { reason: String },
    /// The device and its queue.
    Granted { device: D, queue: Q },
}

/// The render core: the GPU device and queue, the surfaces that live on the
/// device, and the record of what the latest frame applied.
pub struct GpuCore<D, Q, A> {
    device: D,
    queue: Q,
    texture_manager: TextureManager<A>,
    applied: Vec<AppliedEffect>,
}

/// `frame_trace` of the first `n + 1` layers is that of the first `n` followed
/// by the trace of layer `n`.
proof fn lemma_frame_trace_step(layers: Seq<LayerCommand>, n: int)
    requires
        0 <= n < layers.len(),
    ensures
        frame_trace(layers.take(n + 1)) == frame_trace(layers.take(n)) + layer_trace(layers[n]),
{
    assert(layers.take(n + 1).drop_last() =~= layers.take(n));
    assert(layers.take(n + 1).last() == layers[n]);
}

impl<D, Q, A> GpuCore<D, Q, A> {
    /// The device the core owns.
    pub closed spec fn gpu_device(&self) -> D {
        self.device
    }

    /// The queue the core owns.
    pub closed spec fn gpu_queue(&self) -> Q {
        self.queue
    }

    /// The core's resource manager.
    pub closed spec fn textures(&self) -> TextureManager<A> {
        self.texture_manager
    }

    /// The effect applications of the latest frame, in the order they were
    /// made.
    pub closed spec fn trace(&self) -> Seq<EffectRecord> {
        self.applied@.map_values(|applied: AppliedEffect| applied@)
    }

    /// The device the core owns.
    pub fn device(&self) -> (device: &D)
        ensures
            *device == self.gpu_device(),
    {
        &self.device
    }

    /// The queue the core owns.
    pub fn queue(&self) -> (queue: &Q)
        ensures
            *queue == self.gpu_queue(),
    {
        &self.queue
    }

    /// The core's resource manager.
    pub fn texture_manager(&self) -> (manager: &TextureManager<A>)
        ensures
            *manager == self.textures(),
    {
        &self.texture_manager
    }

    /// The effect applications of the latest frame, in the order they were
    /// made.
    pub fn applied_effects(&self) -> (applied: &Vec<AppliedEffect>)
        ensures
            applied@.map_values(|one: AppliedEffect| one@) == self.trace(),
    {
        &self.applied
    }

    /// Applies one effect of `layer`: the application is recorded after those
    /// already made, and nothing else happens. Every effect identifier is
    /// accepted, known or not.
    pub fn apply_effect(&mut self, layer: &LayerCommand, effect: &EffectCommand) -> (outcome: Result<
        (),
        CoreError,
    >)
        ensures
            outcome is Ok,
            final(self).trace() == old(self).trace().push(effect_record(*layer, *effect)),
            final(self).gpu_device() == old(self).gpu_device(),
            final(self).gpu_queue() == old(self).gpu_queue(),
            final(self).textures() == old(self).textures(),
    {
        let applied = AppliedEffect {
            layer_id: layer.layer_id.clone(),
            effect_id: effect.effect_id.clone(),
            parameters: effect.parameters,
        };
        self.applied.push(applied);
        assert(self.trace() =~= old(self).trace().push(effect_record(*layer, *effect)));
        Ok(())
    }

    /// Applies the effects of `layer` in stack order.
    pub fn process_layer(&mut self, layer: &LayerCommand) -> (outcome: Result<(), CoreError>)
        ensures
            outcome is Ok,
            final(self).trace() == old(self).trace() + layer_trace(*layer),
            final(self).gpu_device() == old(self).gpu_device(),
            final(self).gpu_queue() == old(self).gpu_queue(),
            final(self).textures() == old(self).textures(),
    {
        let mut i: usize = 0;
        while i < layer.effect_stack.len()
            invariant
                i <= layer.effect_stack@.len(),
                self.trace() == old(self).trace() + layer_trace(*layer).take(i as int),
                self.gpu_device() == old(self).gpu_device(),
                self.gpu_queue() == old(self).gpu_queue(),
                self.textures() == old(self).textures(),
            decreases layer.effect_stack@.len() - i,
        {
            let applied = self.apply_effect(layer, &layer.effect_stack[i]);
            assert(layer_trace(*layer).take(i + 1) =~= layer_trace(*layer).take(i as int).push(
                effect_record(*layer, layer.effect_stack@[i as int]),
            ));
            match applied {
                Ok(()) => {},
                Err(e) => {
                    return Err(e);
                },
            }
            i += 1;
        }
        assert(layer_trace(*layer).take(i as int) =~= layer_trace(*layer));
        Ok(())
    }

    /// Whether `initialize` may be called with this answer and allocator: the
    /// allocator must accept the default target on the device that was
    /// granted, if one was.
    pub open spec fn may_bring_up<F: FnOnce(&D, &SurfaceDescriptor) -> Result<A, CoreError>>(
        request: DeviceRequest<D, Q>,
        allocate: F,
    ) -> bool {
        request matches DeviceRequest::Granted { device, .. } ==> accepts(
            allocate,
            &device,
            "framebuffer"@,
            frame_size(DEFAULT_WIDTH, DEFAULT_HEIGHT),
        )
    }

    /// What `initialize` makes of the answer to the device request.
    ///
    /// Without an adapter the result is `AdapterUnavailable`; a refused device
    /// gives `DeviceRequestFailed` with the refusal's reason. With a device,
    /// either the allocator failed on the default target and its error is the
    /// result, or the core owns the device, the queue and exactly one
    /// surface: the allocator's, under "framebuffer" at the default size.
    pub open spec fn brought_up<F: FnOnce(&D, &SurfaceDescriptor) -> Result<A, CoreError>>(
        request: DeviceRequest<D, Q>,
        allocate: F,
        made: Result<Self, CoreError>,
    ) -> bool {
        match request {
            DeviceRequest::NoAdapter => made matches Err(CoreError::AdapterUnavailable),
            DeviceRequest::Refused { reason } => made matches Err(
                CoreError::DeviceRequestFailed { reason: told },
            ) && told == reason,
            DeviceRequest::Granted { device, queue } => match made {
                Ok(core) => {
                    &&& core.gpu_device() == device
                    &&& core.gpu_queue() == queue
                    &&& core.trace() == Seq::<EffectRecord>::empty()
                    &&& core.textures()@.dom() == set!["framebuffer"@]
                    &&& core.textures()@["framebuffer"@].label@ == "framebuffer"@
                    &&& core.textures()@["framebuffer"@].size == frame_size(
                        DEFAULT_WIDTH,
                        DEFAULT_HEIGHT,
                    )
                    &&& yields(
                        allocate,
                        &device,
                        "framebuffer"@,
                        frame_size(DEFAULT_WIDTH, DEFAULT_HEIGHT),
                        Ok(core.textures()@["framebuffer"@].allocation),
                    )
                    &&& core.textures().allocations() == 1
                    &&& core.textures().releases() == 0
                },
                Err(e) => yields(
                    allocate,
                    &device,
                    "framebuffer"@,
                    frame_size(DEFAULT_WIDTH, DEFAULT_HEIGHT),
                    Err(e),
                ),
            },
        }
    }

    /// Brings the core up from the answer to the device request.
    ///
    /// No adapter and a refused device are errors. With a device the default
    /// target, "framebuffer" at the default frame size, is ensured on a new
    /// resource manager: if that fails its error is the result, else the core
    /// owns the device, the queue and that one surface.
    pub fn initialize<F>(request: DeviceRequest<D, Q>, allocate: F) -> (made: Result<
        Self,
        CoreError,
    >) where F: FnOnce(&D, &SurfaceDescriptor) -> Result<A, CoreError>
        requires
            Self::may_bring_up(request, allocate),
        ensures
            Self::brought_up(request, allocate, made),
    {
        match request {
            DeviceRequest::NoAdapter => Err(CoreError::AdapterUnavailable),
            DeviceRequest::Refused { reason } => Err(CoreError::DeviceRequestFailed { reason }),
            DeviceRequest::Granted { device, queue } => {
                let mut texture_manager = TextureManager::new();
                let size = TextureSize {
                    width: DEFAULT_WIDTH,
                    height: DEFAULT_HEIGHT,
                    depth_or_array_layers: 1,
                };
                match texture_manager.ensure_texture(&device, allocate, "framebuffer", size) {
                    Ok(()) => {
                        assert(texture_manager@.dom() =~= set!["framebuffer"@]) by {
                            assert(texture_manager@.remove("framebuffer"@).dom()
                                =~= Set::<Seq<char>>::empty());
                        }
                        let core = GpuCore { device, queue, texture_manager, applied: Vec::new() };
                        assert(core.trace() =~= Seq::<EffectRecord>::empty());
                        Ok(core)
                    },
                    Err(e) => Err(e),
                }
            },
        }
    }

    /// Whether `render_frame` may be called for a target `label` of `size`:
    /// the allocator must accept the request if the target has to be
    /// allocated.
    pub open spec fn may_render<F: FnOnce(&D, &SurfaceDescriptor) -> Result<A, CoreError>>(
        &self,
        allocate: F,
        label: Seq<char>,
        size: TextureSize,
    ) -> bool {
        self.textures().must_allocate(label, size) ==> accepts(
            allocate,
            &self.gpu_device(),
            label,
            size,
        )
    }

    /// How `render_frame` relates the core `before` the call to `self` after
    /// it, for a frame into `label` at `size` whose layers call for `wanted`.
    ///
    /// The surfaces are reconciled for the target, which alone decides the
    /// outcome; the record of applied effects is `wanted` after a frame that
    /// succeeded and empty after one that failed; device and queue stay.
    pub open spec fn rendered<F: FnOnce(&D, &SurfaceDescriptor) -> Result<A, CoreError>>(
        &self,
        before: &Self,
        allocate: F,
        label: Seq<char>,
        size: TextureSize,
        wanted: Seq<EffectRecord>,
        outcome: Result<(), CoreError>,
    ) -> bool {
        &&& self.textures().reconciled(
            &before.textures(),
            &before.gpu_device(),
            allocate,
            label,
            size,
            outcome,
        )
        &&& self.trace() == (if outcome is Ok {
            wanted
        } else {
            Seq::<EffectRecord>::empty()
        })
        &&& self.gpu_device() == before.gpu_device()
        &&& self.gpu_queue() == before.gpu_queue()
    }

    /// Renders one frame.
    ///
    /// The frame's target is ensured at `width` x `height` x 1 first; if that
    /// fails its error is the result and no effect is applied. Otherwise the
    /// effects are applied layer after layer in declared order, each layer's
    /// effects in stack order, whatever their identifiers, and the frame
    /// succeeds. The record of applied effects is that of this frame alone.
    pub fn render_frame<F>(&mut self, allocate: F, params: RenderParams) -> (outcome: Result<
        (),
        CoreError,
    >) where F: FnOnce(&D, &SurfaceDescriptor) -> Result<A, CoreError>
        requires
            old(self).may_render(
                allocate,
                params.target_label@,
                frame_size(params.width, params.height),
            ),
        ensures
            final(self).rendered(
                old(self),
                allocate,
                params.target_label@,
                frame_size(params.width, params.height),
                frame_trace(params.layers@),
                outcome,
            ),
    {
        self.applied = Vec::new();
        assert(self.trace() =~= Seq::<EffectRecord>::empty());
        let size = TextureSize {
            width: params.width,
            height: params.height,
            depth_or_array_layers: 1,
        };
        match self.texture_manager.ensure_texture(
            &self.device,
            allocate,
            params.target_label.as_str(),
            size,
        ) {
            Ok(()) => {},
            Err(e) => {
                return Err(e);
            },
        }
        let ghost ensured = self.textures();
        let mut i: usize = 0;
        while i < params.layers.len()
            invariant
                i <= params.layers@.len(),
                self.trace() == frame_trace(params.layers@.take(i as int)),
                self.gpu_device() == old(self).gpu_device(),
                self.gpu_queue() == old(self).gpu_queue(),
                self.textures() == ensured,
            decreases params.layers@.len() - i,
        {
            let processed = self.process_layer(&params.layers[i]);
            proof {
                lemma_frame_trace_step(params.layers@, i as int);
            }
            match processed {
                Ok(()) => {},
                Err(e) => {
                    return Err(e);
                },
            }
            i += 1;
        }
        assert(params.layers@.take(i as int) =~= params.layers@);
        Ok(())
    }
}

/// The trace of a frame is the trace of its first layers followed by the trace
/// of the layers after them: no layer's effects are moved before those of an
/// earlier layer.
pub proof fn lemma_frame_trace_concat(first: Seq<LayerCommand>, rest: Seq<LayerCommand>)
    ensures
        frame_trace(first + rest) == frame_trace(first) + frame_trace(rest),
    decreases rest.len(),
{
    if rest.len() == 0 {
        assert(first + rest =~= first);
        assert(frame_trace(first) + frame_trace(rest) =~= frame_trace(first));
    } else {
        lemma_frame_trace_concat(first, rest.drop_last());
        assert((first + rest).drop_last() =~= first + rest.drop_last());
        assert((first + rest).last() == rest.last());
        assert(frame_trace(first + rest) =~= frame_trace(first) + frame_trace(rest));
    }
}

/// Inside the trace of a frame, the effects of layer `n` stand in stack order,
/// right after all effects of the layers before it.
pub proof fn lemma_frame_trace_position(layers: Seq<LayerCommand>, n: int, k: int)
    requires
        0 <= n < layers.len(),
        0 <= k < layers[n].effect_stack@.len(),
    ensures
        frame_trace(layers.take(n)).len() + k < frame_trace(layers).len(),
        frame_trace(layers)[frame_trace(layers.take(n)).len() + k] == effect_record(
            layers[n],
            layers[n].effect_stack@[k],
        ),
{
    let before = layers.take(n);
    let after = layers.skip(n + 1);
    assert(layers =~= before + seq![layers[n]] + after);
    lemma_frame_trace_concat(before + seq![layers[n]], after);
    lemma_frame_trace_concat(before, seq![layers[n]]);
    let single = seq![layers[n]];
    assert(single.drop_last() =~= Seq::<LayerCommand>::empty());
    assert(single.last() == layers[n]);
    assert(frame_trace(single.drop_last()) =~= Seq::<EffectRecord>::empty());
    assert(frame_trace(single) =~= layer_trace(layers[n])) by {
        assert(frame_trace(single) == frame_trace(single.drop_last()) + layer_trace(
            single.last(),
        ));
    }
}

/// A frame fails only where its target had to be allocated and the allocation
/// failed; the layers and their effect identifiers have no part in it.
pub proof fn lemma_render_fails_only_on_allocation<D, Q, A, F>(
    before: GpuCore<D, Q, A>,
    after: GpuCore<D, Q, A>,
    allocate: F,
    params: RenderParams,
    outcome: Result<(), CoreError>,
) where F: FnOnce(&D, &SurfaceDescriptor) -> Result<A, CoreError>
    requires
        after.rendered(
            &before,
            allocate,
            params.target_label@,
            frame_size(params.width, params.height),
            frame_trace(params.layers@),
            outcome,
        ),
    ensures
        outcome matches Err(e) ==> before.textures().must_allocate(
            params.target_label@,
            frame_size(params.width, params.height),
        ) && yields(
            allocate,
            &before.gpu_device(),
            params.target_label@,
            frame_size(params.width, params.height),
            Err(e),
        ),
{
}

} // verus!
