//! What the core offers to the frame driver and to language bindings:
//! requests built from loosely described frames, and the slot that brings the
//! one render core of a process up on first use.

use vstd::prelude::*;
use crate::error::CoreError;
use crate::gpu_core::{
    effect_record, frame_size, frame_trace, layer_trace, DeviceRequest, EffectCommand,
    EffectParameters, EffectRecord, GpuCore, LayerCommand, RenderParams, DEFAULT_HEIGHT,
    DEFAULT_WIDTH,
};
use crate::scalar::{Scalar, ONE_BITS, ZERO_BITS};
use crate::texture_manager::{
    describes_surface, never_fails, yields, SurfaceDescriptor, TextureSize,
};

verus! {

/// An effect as a caller describes it: parameters may be left out.
#[derive(Debug)]
pub struct EffectDescriptor {
    pub effect_id: String,
    pub intensity: Option<Scalar>,
    pub blend: Option<Scalar>,
}

/// A layer as a caller describes it.
#[derive(Debug)]
pub struct LayerDescriptor {
    pub layer_id: String,
    pub effects: Vec<EffectDescriptor>,
}

/// The parameters an effect runs with when it is described with these.
pub open spec fn defaulted(intensity: Option<Scalar>, blend: Option<Scalar>) -> EffectParameters {
    EffectParameters {
        intensity: match intensity {
            Some(given) => given,
            None => Scalar { bits: ONE_BITS },
        },
        blend: match blend {
            Some(given) => given,
            None => Scalar { bits: ONE_BITS },
        },
    }
}

/// The command a described effect stands for.
pub open spec fn effect_decoded(described: EffectDescriptor) -> EffectCommand {
    EffectCommand {
        effect_id: described.effect_id,
        parameters: defaulted(described.intensity, described.blend),
    }
}

/// Whether `command` is the layer `described`: the same identifier and the
/// described effects, each decoded, in the same order.
pub open spec fn layer_decoded(described: LayerDescriptor, command: LayerCommand) -> bool {
    &&& command.layer_id == described.layer_id
    &&& command.effect_stack@.len() == described.effects@.len()
    &&& forall|i: int|
        0 <= i < described.effects@.len() ==> #[trigger] command.effect_stack@[i]
            == effect_decoded(described.effects@[i])
}

/// Whether `commands` are the layers `described`, each decoded, in the same
/// order.
pub open spec fn layers_decoded(described: Seq<LayerDescriptor>, commands: Seq<LayerCommand>) -> bool {
    &&& commands.len() == described.len()
    &&& forall|i: int|
        0 <= i < described.len() ==> layer_decoded(described[i], #[trigger] commands[i])
}

/// Decodes one described effect: its identifier is kept, and each parameter
/// that was left out becomes one.
pub fn decode_effect(described: EffectDescriptor) -> (command: EffectCommand)
    ensures
        command == effect_decoded(described),
{
    EffectCommand {
        effect_id: described.effect_id,
        parameters: EffectParameters::with_defaults(described.intensity, described.blend),
    }
}

/// Decodes one described layer, keeping its effects in their order.
pub fn decode_layer(described: LayerDescriptor) -> (command: LayerCommand)
    ensures
        layer_decoded(described, command),
{
    let LayerDescriptor { layer_id, effects } = described;
    let ghost wanted = effects@;
    let mut effect_stack: Vec<EffectCommand> = Vec::new();
    for effect in each: effects.into_iter()
        invariant
            each.seq() == wanted,
            effect_stack@.len() == each.index(),
            forall|i: int|
                0 <= i < each.index() ==> #[trigger] effect_stack@[i] == effect_decoded(wanted[i]),
    {
        effect_stack.push(decode_effect(effect));
    }
    LayerCommand { layer_id, effect_stack }
}

/// Builds the request for one frame from what a caller gave: the target is
/// "framebuffer", the size 1920 x 1080 and the time zero wherever one was left
/// out; the layers are the described layers, decoded in their order, and none
/// where none were given.
pub fn frame_request(
    target_label: Option<String>,
    width: Option<u32>,
    height: Option<u32>,
    time: Option<Scalar>,
    layers: Option<Vec<LayerDescriptor>>,
) -> (params: RenderParams)
    ensures
        params.target_label@ == (match target_label {
            Some(label) => label@,
            None => "framebuffer"@,
        }),
        params.width == (match width {
            Some(given) => given,
            None => DEFAULT_WIDTH,
        }),
        params.height == (match height {
            Some(given) => given,
            None => DEFAULT_HEIGHT,
        }),
        params.time == (match time {
            Some(given) => given,
            None => Scalar { bits: ZERO_BITS },
        }),
        layers_decoded(
            match layers {
                Some(described) => described@,
                None => Seq::empty(),
            },
            params.layers@,
        ),
{
    let mut commands: Vec<LayerCommand> = Vec::new();
    match layers {
        Some(described) => {
            let ghost wanted = described@;
            for layer in each: described.into_iter()
                invariant
                    each.seq() == wanted,
                    commands@.len() == each.index(),
                    forall|i: int|
                        0 <= i < each.index() ==> layer_decoded(wanted[i], #[trigger] commands@[i]),
            {
                commands.push(decode_layer(layer));
            }
        },
        None => {},
    }
    RenderParams {
        target_label: match target_label {
            Some(label) => label,
            None => "framebuffer".to_owned(),
        },
        width: match width {
            Some(given) => given,
            None => DEFAULT_WIDTH,
        },
        height: match height {
            Some(given) => given,
            None => DEFAULT_HEIGHT,
        },
        time: Scalar::or_default(time, Scalar::zero()),
        layers: commands,
    }
}

/// What the one layer of a single-effect request applies.
pub open spec fn single_effect_trace(
    effect_id: Seq<char>,
    intensity: Option<Scalar>,
    blend: Option<Scalar>,
) -> Seq<EffectRecord> {
    seq![
        EffectRecord {
            layer: "single-layer"@,
            effect: effect_id,
            parameters: defaulted(intensity, blend),
        },
    ]
}

/// An effect described without parameters is applied exactly as one described
/// with both parameters at one: a parameter that is left out stands for one.
pub proof fn lemma_missing_parameters_are_one(effect_id: Seq<char>, given: Scalar)
    ensures
        defaulted(None, None) == defaulted(Some(Scalar { bits: ONE_BITS }), Some(Scalar { bits: ONE_BITS })),
        defaulted(Some(given), None) == defaulted(Some(given), Some(Scalar { bits: ONE_BITS })),
        defaulted(None, Some(given)) == defaulted(Some(Scalar { bits: ONE_BITS }), Some(given)),
        single_effect_trace(effect_id, None, None) == single_effect_trace(
            effect_id,
            Some(Scalar { bits: ONE_BITS }),
            Some(Scalar { bits: ONE_BITS }),
        ),
{
}

/// Builds the request that applies one effect to `target_label`: a frame of
/// the default size at time zero with the one layer "single-layer", whose
/// stack is that effect; each parameter that was left out becomes one.
pub fn single_effect_request(
    target_label: String,
    effect_id: String,
    intensity: Option<Scalar>,
    blend: Option<Scalar>,
) -> (params: RenderParams)
    ensures
        params.target_label == target_label,
        params.width == DEFAULT_WIDTH,
        params.height == DEFAULT_HEIGHT,
        params.time == (Scalar { bits: ZERO_BITS }),
        params.layers@.len() == 1,
        params.layers@[0].layer_id@ == "single-layer"@,
        params.layers@[0].effect_stack@ == seq![
            EffectCommand { effect_id, parameters: defaulted(intensity, blend) },
        ],
        frame_trace(params.layers@) == single_effect_trace(effect_id@, intensity, blend),
{
    let command = EffectCommand {
        effect_id,
        parameters: EffectParameters::with_defaults(intensity, blend),
    };
    let mut effect_stack: Vec<EffectCommand> = Vec::new();
    effect_stack.push(command);
    let layer = LayerCommand { layer_id: "single-layer".to_owned(), effect_stack };
    let mut layers: Vec<LayerCommand> = Vec::new();
    layers.push(layer);
    proof {
        assert(layers@.drop_last() =~= Seq::<LayerCommand>::empty());
        assert(frame_trace(layers@.drop_last()) =~= Seq::<EffectRecord>::empty());
        assert(layers@.last() == layers@[0]);
        assert(layer_trace(layers@[0]) =~= single_effect_trace(effect_id@, intensity, blend));
        assert(frame_trace(layers@) =~= frame_trace(layers@.drop_last()) + layer_trace(
            layers@.last(),
        ));
    }
    RenderParams {
        target_label,
        width: DEFAULT_WIDTH,
        height: DEFAULT_HEIGHT,
        time: Scalar::zero(),
        layers,
    }
}

/// What finding the lock of the shared render state poisoned comes to: an
/// earlier panic left the state inconsistent, so the call fails with
/// `LockPoisoned`; a sound lock lets it go on.
pub fn lock_outcome(poisoned: bool) -> (outcome: Result<(), CoreError>)
    ensures
        poisoned ==> outcome matches Err(CoreError::LockPoisoned),
        !poisoned ==> outcome is Ok,
{
    if poisoned {
        Err(CoreError::LockPoisoned)
    } else {
        Ok(())
    }
}

/// The place of the one render core of a process: empty until the core is
/// first needed, then holding it for good.
pub struct CoreSlot<D, Q, A> {
    held: Option<GpuCore<D, Q, A>>,
    acquisitions: u64,
}

/// The core a bring-up made, if it made one.
pub open spec fn core_of<D, Q, A>(made: Result<GpuCore<D, Q, A>, CoreError>) -> Option<
    GpuCore<D, Q, A>,
> {
    match made {
        Ok(core) => Some(core),
        Err(_) => None,
    }
}

/// Whether a bring-up succeeded, and the error if it did not.
pub open spec fn status_of<D, Q, A>(made: Result<GpuCore<D, Q, A>, CoreError>) -> Result<
    (),
    CoreError,
> {
    match made {
        Ok(_) => Ok(()),
        Err(error) => Err(error),
    }
}

impl<D, Q, A> CoreSlot<D, Q, A> {
    /// The core, once it has been brought up.
    pub closed spec fn held(&self) -> Option<GpuCore<D, Q, A>> {
        self.held
    }

    /// How often a device was asked for through this slot.
    pub closed spec fn acquisitions(&self) -> u64 {
        self.acquisitions
    }

    /// Whether `initialize` may be called: an empty slot must be allowed to
    /// ask for a device, and to bring the core up on whatever it is answered.
    pub open spec fn may_initialize<G: FnOnce() -> DeviceRequest<D, Q>, F: FnOnce(&D, &SurfaceDescriptor) -> Result<A, CoreError>>(&self, acquire: G, allocate: F) -> bool {
        self.held() is None ==> {
            &&& acquire.requires(())
            &&& forall|request: DeviceRequest<D, Q>| #[trigger]
                acquire.ensures((), request) ==> GpuCore::<D, Q, A>::may_bring_up(
                    request,
                    allocate,
                )
        }
    }

    /// How `initialize` relates the slot `before` the call to `self` after it.
    ///
    /// A slot that holds a core is left alone. An empty slot asks for a
    /// device once, which is counted, and brings the core up on the answer:
    /// the slot holds the core that was made, or stays empty with the error.
    pub open spec fn initialized<G: FnOnce() -> DeviceRequest<D, Q>, F: FnOnce(&D, &SurfaceDescriptor) -> Result<A, CoreError>>(
        &self,
        before: &Self,
        acquire: G,
        allocate: F,
        outcome: Result<(), CoreError>,
    ) -> bool {
        if before.held() is Some {
            outcome is Ok && *self == *before
        } else {
            &&& self.acquisitions() == crate::texture_manager::counted(before.acquisitions())
            &&& exists|request: DeviceRequest<D, Q>, made: Result<GpuCore<D, Q, A>, CoreError>|
                {
                    &&& acquire.ensures((), request)
                    &&& #[trigger] GpuCore::<D, Q, A>::brought_up(request, allocate, made)
                    &&& self.held() == core_of(made)
                    &&& outcome == status_of(made)
                }
        }
    }

    /// An empty slot that has asked for no device yet.
    pub fn new() -> (slot: Self)
        ensures
            slot.held() is None,
            slot.acquisitions() == 0,
    {
        CoreSlot { held: None, acquisitions: 0 }
    }

    /// Whether the core has been brought up.
    pub fn is_initialized(&self) -> (ready: bool)
        ensures
            ready == self.held() is Some,
    {
        self.held.is_some()
    }

    /// How often a device was asked for through this slot (it stops counting
    /// at `u64::MAX`).
    pub fn acquisition_count(&self) -> (count: u64)
        ensures
            count == self.acquisitions(),
    {
        self.acquisitions
    }

    /// The core, once it has been brought up.
    pub fn gpu_core(&self) -> (core: Option<&GpuCore<D, Q, A>>)
        ensures
            core == (match self.held() {
                Some(held) => Some(&held),
                None => None,
            }),
    {
        self.held.as_ref()
    }

    /// Brings the core up unless the slot holds it already.
    ///
    /// Only an empty slot calls `acquire`, once, and hands the answer and
    /// `allocate` to `GpuCore::initialize`. A failure leaves the slot empty,
    /// so that a later call tries again.
    pub fn initialize<G, F>(&mut self, acquire: G, allocate: F) -> (outcome: Result<
        (),
        CoreError,
    >) where
        G: FnOnce() -> DeviceRequest<D, Q>,
        F: FnOnce(&D, &SurfaceDescriptor) -> Result<A, CoreError>,

        requires
            old(self).may_initialize(acquire, allocate),
        ensures
            final(self).initialized(old(self), acquire, allocate, outcome),
    {
        if self.held.is_some() {
            return Ok(());
        }
        if self.acquisitions < u64::MAX {
            self.acquisitions = self.acquisitions + 1;
        }
        let request = acquire();
        let ghost answered = request;
        let made = GpuCore::initialize(request, allocate);
        let ghost result = made;
        match made {
            Ok(core) => {
                self.held = Some(core);
                assert(GpuCore::<D, Q, A>::brought_up(answered, allocate, result));
                Ok(())
            },
            Err(error) => {
                assert(GpuCore::<D, Q, A>::brought_up(answered, allocate, result));
                Err(error)
            },
        }
    }

    /// Whether a frame into `label` at `size` may be rendered through the
    /// slot: the slot may be initialized, and the core that does the
    /// rendering, the one held or whichever is brought up, may render it.
    pub open spec fn may_render_frame<G: FnOnce() -> DeviceRequest<D, Q>, F: Fn(&D, &SurfaceDescriptor) -> Result<A, CoreError>>(
        &self,
        acquire: G,
        allocate: F,
        label: Seq<char>,
        size: TextureSize,
    ) -> bool {
        &&& self.may_initialize(acquire, allocate)
        &&& match self.held() {
            Some(held) => held.may_render(allocate, label, size),
            None => forall|request: DeviceRequest<D, Q>, made: GpuCore<D, Q, A>|
                acquire.ensures((), request) && #[trigger] GpuCore::<D, Q, A>::brought_up(
                    request,
                    allocate,
                    Ok(made),
                ) ==> made.may_render(allocate, label, size),
        }
    }

    /// How rendering through the slot relates the slot `before` the call to
    /// `self` after it: the slot is initialized first, into the state
    /// `ready`; if that fails, its error is the outcome and nothing is
    /// rendered; else the core that `ready` holds renders the frame.
    pub open spec fn frame_rendered<G: FnOnce() -> DeviceRequest<D, Q>, F: Fn(&D, &SurfaceDescriptor) -> Result<A, CoreError>>(
        &self,
        before: &Self,
        acquire: G,
        allocate: F,
        label: Seq<char>,
        size: TextureSize,
        wanted: Seq<EffectRecord>,
        outcome: Result<(), CoreError>,
    ) -> bool {
        exists|ready: Self, brought: Result<(), CoreError>|
            {
                &&& #[trigger] ready.initialized(before, acquire, allocate, brought)
                &&& match brought {
                    Err(error) => *self == ready && outcome == Err::<(), CoreError>(error),
                    Ok(_) => {
                        &&& ready.held() is Some
                        &&& self.held() is Some
                        &&& self.acquisitions() == ready.acquisitions()
                        &&& self.held()->0.rendered(
                            &ready.held()->0,
                            allocate,
                            label,
                            size,
                            wanted,
                            outcome,
                        )
                    },
                }
            }
    }

    /// Renders one frame on the core, bringing the core up first if the slot
    /// is empty.
    ///
    /// If the bring-up fails its error is the result and the frame is not
    /// rendered. `allocate` serves both the default target of a bring-up and
    /// the target of the frame.
    pub fn render_frame<G, F>(&mut self, acquire: G, allocate: F, params: RenderParams) -> (outcome:
        Result<(), CoreError>) where
        G: FnOnce() -> DeviceRequest<D, Q>,
        F: Fn(&D, &SurfaceDescriptor) -> Result<A, CoreError>,

        requires
            old(self).may_render_frame(
                acquire,
                allocate,
                params.target_label@,
                frame_size(params.width, params.height),
            ),
        ensures
            final(self).frame_rendered(
                old(self),
                acquire,
                allocate,
                params.target_label@,
                frame_size(params.width, params.height),
                frame_trace(params.layers@),
                outcome,
            ),
    {
        let brought = self.initialize(acquire, &allocate);
        let ghost ready = *self;
        let ghost brought_as = brought;
        proof {
            lemma_initialized_through_reference(ready, *old(self), acquire, allocate, brought_as);
        }
        match brought {
            Ok(_) => {},
            Err(error) => {
                return Err(error);
            },
        }
        let mut held = self.held.take().unwrap();
        let ghost before_frame = held;
        let outcome = held.render_frame(&allocate, params);
        proof {
            lemma_rendered_through_reference(
                held,
                before_frame,
                allocate,
                params.target_label@,
                frame_size(params.width, params.height),
                frame_trace(params.layers@),
                outcome,
            );
        }
        self.held = Some(held);
        outcome
    }

    /// Applies one effect to `target_label`: renders the single-effect
    /// request for it, bringing the core up first if the slot is empty. Each
    /// parameter that is left out is taken as one.
    pub fn apply_filter_to_texture<G, F>(
        &mut self,
        acquire: G,
        allocate: F,
        target_label: String,
        effect_id: String,
        intensity: Option<Scalar>,
        blend: Option<Scalar>,
    ) -> (outcome: Result<(), CoreError>) where
        G: FnOnce() -> DeviceRequest<D, Q>,
        F: Fn(&D, &SurfaceDescriptor) -> Result<A, CoreError>,

        requires
            old(self).may_render_frame(
                acquire,
                allocate,
                target_label@,
                frame_size(DEFAULT_WIDTH, DEFAULT_HEIGHT),
            ),
        ensures
            final(self).frame_rendered(
                old(self),
                acquire,
                allocate,
                target_label@,
                frame_size(DEFAULT_WIDTH, DEFAULT_HEIGHT),
                single_effect_trace(effect_id@, intensity, blend),
                outcome,
            ),
    {
        let params = single_effect_request(target_label, effect_id, intensity, blend);
        self.render_frame(acquire, allocate, params)
    }
}

/// An allocation that a borrowed allocator can yield is one the allocator
/// itself can yield.
proof fn lemma_yields_through_reference<A, D, F>(
    allocate: F,
    device: &D,
    label: Seq<char>,
    size: TextureSize,
    result: Result<A, CoreError>,
) where F: Fn(&D, &SurfaceDescriptor) -> Result<A, CoreError>
    requires
        yields(&allocate, device, label, size, result),
    ensures
        yields(allocate, device, label, size, result),
{
    let descriptor = choose|descriptor: SurfaceDescriptor|
        describes_surface(descriptor, label, size) && #[trigger] (&allocate).ensures(
            (device, &descriptor),
            result,
        );
    assert(allocate.ensures((device, &descriptor), result));
}

/// A frame rendered with a borrowed allocator is a frame rendered with the
/// allocator itself.
proof fn lemma_rendered_through_reference<D, Q, A, F>(
    after: GpuCore<D, Q, A>,
    before: GpuCore<D, Q, A>,
    allocate: F,
    label: Seq<char>,
    size: TextureSize,
    wanted: Seq<EffectRecord>,
    outcome: Result<(), CoreError>,
) where F: Fn(&D, &SurfaceDescriptor) -> Result<A, CoreError>
    requires
        after.rendered(&before, &allocate, label, size, wanted, outcome),
    ensures
        after.rendered(&before, allocate, label, size, wanted, outcome),
{
    if before.textures().must_allocate(label, size) {
        match outcome {
            Ok(_) => {
                lemma_yields_through_reference(
                    allocate,
                    &before.gpu_device(),
                    label,
                    size,
                    Ok(after.textures()@[label].allocation),
                );
            },
            Err(error) => {
                lemma_yields_through_reference(
                    allocate,
                    &before.gpu_device(),
                    label,
                    size,
                    Err(error),
                );
            },
        }
    }
}

/// A core brought up with a borrowed allocator is a core brought up with the
/// allocator itself.
proof fn lemma_brought_up_through_reference<D, Q, A, F>(
    request: DeviceRequest<D, Q>,
    allocate: F,
    made: Result<GpuCore<D, Q, A>, CoreError>,
) where F: Fn(&D, &SurfaceDescriptor) -> Result<A, CoreError>
    requires
        GpuCore::<D, Q, A>::brought_up(request, &allocate, made),
    ensures
        GpuCore::<D, Q, A>::brought_up(request, allocate, made),
{
    match request {
        DeviceRequest::Granted { device, queue } => {
            let size = frame_size(DEFAULT_WIDTH, DEFAULT_HEIGHT);
            match made {
                Ok(held) => {
                    lemma_yields_through_reference(
                        allocate,
                        &device,
                        "framebuffer"@,
                        size,
                        Ok(held.textures()@["framebuffer"@].allocation),
                    );
                },
                Err(error) => {
                    lemma_yields_through_reference(
                        allocate,
                        &device,
                        "framebuffer"@,
                        size,
                        Err(error),
                    );
                },
            }
        },
        _ => {},
    }
}

/// A slot initialized with a borrowed allocator is a slot initialized with the
/// allocator itself.
proof fn lemma_initialized_through_reference<D, Q, A, G, F>(
    after: CoreSlot<D, Q, A>,
    before: CoreSlot<D, Q, A>,
    acquire: G,
    allocate: F,
    outcome: Result<(), CoreError>,
) where G: FnOnce() -> DeviceRequest<D, Q>, F: Fn(&D, &SurfaceDescriptor) -> Result<A, CoreError>
    requires
        after.initialized(&before, acquire, &allocate, outcome),
    ensures
        after.initialized(&before, acquire, allocate, outcome),
{
    if before.held() is None {
        let (request, made) = choose|
            request: DeviceRequest<D, Q>,
            made: Result<GpuCore<D, Q, A>, CoreError>,
        |
            {
                &&& acquire.ensures((), request)
                &&& #[trigger] GpuCore::<D, Q, A>::brought_up(request, &allocate, made)
                &&& after.held() == core_of(made)
                &&& outcome == status_of(made)
            };
        lemma_brought_up_through_reference(request, allocate, made);
    }
}

/// Of two bring-ups in a row through one slot, the first asks for a device and
/// the second does not: after the first has succeeded, the second succeeds
/// without calling anything and leaves the slot as it found it.
pub proof fn lemma_initialize_acquires_once<D, Q, A, G1, F1, G2, F2>(
    start: CoreSlot<D, Q, A>,
    middle: CoreSlot<D, Q, A>,
    end: CoreSlot<D, Q, A>,
    first_acquire: G1,
    first_allocate: F1,
    second_acquire: G2,
    second_allocate: F2,
    first_outcome: Result<(), CoreError>,
    second_outcome: Result<(), CoreError>,
) where
    G1: FnOnce() -> DeviceRequest<D, Q>,
    F1: FnOnce(&D, &SurfaceDescriptor) -> Result<A, CoreError>,
    G2: FnOnce() -> DeviceRequest<D, Q>,
    F2: FnOnce(&D, &SurfaceDescriptor) -> Result<A, CoreError>,

    requires
        start.held() is None,
        middle.initialized(&start, first_acquire, first_allocate, first_outcome),
        first_outcome is Ok,
        end.initialized(&middle, second_acquire, second_allocate, second_outcome),
    ensures
        middle.held() is Some,
        middle.may_initialize(second_acquire, second_allocate),
        second_outcome is Ok,
        end == middle,
        end.acquisitions() == crate::texture_manager::counted(start.acquisitions()),
{
}

/// Where an adapter and a device can always be had and the default target can
/// always be allocated, two bring-ups in a row through an empty slot both
/// succeed, and only the first asks for a device: one acquisition is counted,
/// and the second call leaves the slot as the first left it.
pub proof fn lemma_initialize_twice_when_granted<D, Q, A, G1, F1, G2, F2>(
    start: CoreSlot<D, Q, A>,
    middle: CoreSlot<D, Q, A>,
    end: CoreSlot<D, Q, A>,
    first_acquire: G1,
    first_allocate: F1,
    second_acquire: G2,
    second_allocate: F2,
    first_outcome: Result<(), CoreError>,
    second_outcome: Result<(), CoreError>,
) where
    G1: FnOnce() -> DeviceRequest<D, Q>,
    F1: FnOnce(&D, &SurfaceDescriptor) -> Result<A, CoreError>,
    G2: FnOnce() -> DeviceRequest<D, Q>,
    F2: FnOnce(&D, &SurfaceDescriptor) -> Result<A, CoreError>,

    requires
        start.held() is None,
        forall|request: DeviceRequest<D, Q>| #[trigger]
            first_acquire.ensures((), request) ==> (request matches DeviceRequest::Granted {
                device,
                ..
            } && never_fails(
                first_allocate,
                &device,
                "framebuffer"@,
                frame_size(DEFAULT_WIDTH, DEFAULT_HEIGHT),
            )),
        middle.initialized(&start, first_acquire, first_allocate, first_outcome),
        end.initialized(&middle, second_acquire, second_allocate, second_outcome),
    ensures
        first_outcome is Ok,
        middle.held() is Some,
        second_outcome is Ok,
        end == middle,
        end.acquisitions() == crate::texture_manager::counted(start.acquisitions()),
{
    let (request, made) = choose|
        request: DeviceRequest<D, Q>,
        made: Result<GpuCore<D, Q, A>, CoreError>,
    |
        {
            &&& first_acquire.ensures((), request)
            &&& #[trigger] GpuCore::<D, Q, A>::brought_up(request, first_allocate, made)
            &&& middle.held() == core_of(made)
            &&& first_outcome == status_of(made)
        };
    if let Err(error) = made {
        match request {
            DeviceRequest::Granted { device, queue } => {
                assert(yields(
                    first_allocate,
                    &device,
                    "framebuffer"@,
                    frame_size(DEFAULT_WIDTH, DEFAULT_HEIGHT),
                    Err::<A, CoreError>(error),
                ));
            },
            _ => {},
        }
    }
}

} // verus!
