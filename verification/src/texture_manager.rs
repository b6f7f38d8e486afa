//! The resource manager: which GPU surface is live under which label, and
//! when a surface has to be allocated, kept or replaced.
//!
//! The manager does not talk to a GPU itself. Whoever calls `ensure_texture`
//! hands it the allocator to use, and the contracts say what the manager does
//! with whatever the allocator answers.

use vstd::prelude::*;
use crate::error::CoreError;

verus! {

/// Extent of a GPU surface: width, height and depth (or array layer count).
#[derive(Clone, Copy, Debug, PartialEq, Eq, Structural)]
pub struct TextureSize {
    pub width: u32,
    pub height: u32,
    pub depth_or_array_layers: u32,
}

/// The manager's record of one live GPU surface.
///
/// `allocation` is whatever the GPU backend handed out for the surface; the
/// manager never looks inside it and releases it by dropping it.
pub struct TextureHandle<A> {
    pub label: String,
    pub allocation: A,
    pub size: TextureSize,
}

/// Owns every live surface, at most one per label.
pub struct TextureManager<A> {
    textures: Vec<TextureHandle<A>>,
    allocations: u64,
    releases: u64,
}

/// The value of a saturating event counter after one more event.
pub open spec fn counted(n: u64) -> u64 {
    if n < u64::MAX {
        (n + 1) as u64
    } else {
        n
    }
}

/// Whether some entry of `entries` carries `label`.
pub open spec fn has_label<A>(entries: Seq<TextureHandle<A>>, label: Seq<char>) -> bool {
    exists|i: int| 0 <= i < entries.len() && (#[trigger] entries[i]).label@ == label
}

/// An index at which `entries` carries `label`, when there is one.
pub open spec fn index_of<A>(entries: Seq<TextureHandle<A>>, label: Seq<char>) -> int {
    choose|i: int| 0 <= i < entries.len() && (#[trigger] entries[i]).label@ == label
}

/// No label occurs on two entries.
pub open spec fn labels_distinct<A>(entries: Seq<TextureHandle<A>>) -> bool {
    forall|i: int, j: int|
        0 <= i < entries.len() && 0 <= j < entries.len() && i != j ==> (#[trigger] entries[i]).label@
            != (#[trigger] entries[j]).label@
}

/// The entries keyed by their labels.
pub open spec fn keyed<A>(entries: Seq<TextureHandle<A>>) -> Map<Seq<char>, TextureHandle<A>> {
    Map::new(
        |label: Seq<char>| has_label(entries, label),
        |label: Seq<char>| entries[index_of(entries, label)],
    )
}

/// How many dimensions a surface has.
#[derive(Clone, Copy, Debug, PartialEq, Eq, Structural)]
pub enum SurfaceDimension {
    D1,
    D2,
    D3,
}

/// How the texels of a surface are stored: four 8-bit channels, read as
/// linear values or as sRGB.
#[derive(Clone, Copy, Debug, PartialEq, Eq, Structural)]
pub enum SurfaceFormat {
    Rgba8Unorm,
    Rgba8UnormSrgb,
}

/// What a surface may be used for.
#[derive(Clone, Copy, Debug, PartialEq, Eq, Structural)]
pub struct SurfaceUsage {
    pub copy_src: bool,
    pub copy_dst: bool,
    pub texture_binding: bool,
    pub storage_binding: bool,
    pub render_attachment: bool,
}

/// Which view of a surface is kept with it.
#[derive(Clone, Copy, Debug, PartialEq, Eq, Structural)]
pub enum SurfaceView {
    /// The view the GPU makes of a texture that is asked for no particular
    /// one: all of it, in its own format.
    Default,
}

/// Everything the GPU is told when a surface is allocated.
#[derive(Debug, PartialEq, Eq)]
pub struct SurfaceDescriptor {
    pub label: String,
    pub size: TextureSize,
    pub mip_level_count: u32,
    pub sample_count: u32,
    pub dimension: SurfaceDimension,
    pub format: SurfaceFormat,
    pub usage: SurfaceUsage,
    pub view_formats: Vec<SurfaceFormat>,
    pub view: SurfaceView,
}

/// The uses every surface of the manager is allocated for: it can be bound as
/// a texture, copied into and bound as storage, and nothing else.
pub open spec fn surface_usage() -> SurfaceUsage {
    SurfaceUsage {
        copy_src: false,
        copy_dst: true,
        texture_binding: true,
        storage_binding: true,
        render_attachment: false,
    }
}

/// Whether `descriptor` is what the manager tells the GPU for a surface under
/// `label` at `size`: that label and size, one mip level, one sample, two
/// dimensions, 8-bit RGBA read as sRGB, the manager's uses, no further view
/// formats, kept with its default view.
pub open spec fn describes_surface(
    descriptor: SurfaceDescriptor,
    label: Seq<char>,
    size: TextureSize,
) -> bool {
    &&& descriptor.label@ == label
    &&& descriptor.size == size
    &&& descriptor.mip_level_count == 1
    &&& descriptor.sample_count == 1
    &&& descriptor.dimension == SurfaceDimension::D2
    &&& descriptor.format == SurfaceFormat::Rgba8UnormSrgb
    &&& descriptor.usage == surface_usage()
    &&& descriptor.view_formats@.len() == 0
    &&& descriptor.view == SurfaceView::Default
}

/// What the manager tells the GPU for a surface under `label` at `size`.
pub fn surface_descriptor(label: &str, size: TextureSize) -> (descriptor: SurfaceDescriptor)
    ensures
        describes_surface(descriptor, label@, size),
{
    SurfaceDescriptor {
        label: label.to_owned(),
        size,
        mip_level_count: 1,
        sample_count: 1,
        dimension: SurfaceDimension::D2,
        format: SurfaceFormat::Rgba8UnormSrgb,
        usage: SurfaceUsage {
            copy_src: false,
            copy_dst: true,
            texture_binding: true,
            storage_binding: true,
            render_attachment: false,
        },
        view_formats: Vec::new(),
        view: SurfaceView::Default,
    }
}

/// Whether `allocate` may be called with `device` and the descriptor of a
/// surface under `label` at `size`.
pub open spec fn accepts<A, D, F: FnOnce(&D, &SurfaceDescriptor) -> Result<A, CoreError>>(
    allocate: F,
    device: &D,
    label: Seq<char>,
    size: TextureSize,
) -> bool {
    forall|descriptor: SurfaceDescriptor|
        describes_surface(descriptor, label, size) ==> #[trigger] allocate.requires(
            (device, &descriptor),
        )
}

/// Whether `result` is something `allocate` can return when it is called with
/// `device` and the descriptor of a surface under `label` at `size`.
pub open spec fn yields<A, D, F: FnOnce(&D, &SurfaceDescriptor) -> Result<A, CoreError>>(
    allocate: F,
    device: &D,
    label: Seq<char>,
    size: TextureSize,
    result: Result<A, CoreError>,
) -> bool {
    exists|descriptor: SurfaceDescriptor|
        describes_surface(descriptor, label, size) && #[trigger] allocate.ensures(
            (device, &descriptor),
            result,
        )
}

/// Whether `allocate` cannot fail on a surface under `label` at `size`: an
/// error is nothing it can return for it.
pub open spec fn never_fails<A, D, F: FnOnce(&D, &SurfaceDescriptor) -> Result<A, CoreError>>(
    allocate: F,
    device: &D,
    label: Seq<char>,
    size: TextureSize,
) -> bool {
    forall|result: Result<A, CoreError>| #[trigger]
        yields(allocate, device, label, size, result) ==> result is Ok
}

/// Index of the entry of `entries` that carries `label`, if any.
fn find_label<A>(entries: &Vec<TextureHandle<A>>, label: &str) -> (found: Option<usize>)
    requires
        labels_distinct(entries@),
    ensures
        match found {
            Some(i) => i < entries@.len() && entries@[i as int].label@ == label@ && has_label(
                entries@,
                label@,
            ) && index_of(entries@, label@) == i,
            None => !has_label(entries@, label@),
        },
{
    let key = label.to_owned();
    let mut i: usize = 0;
    while i < entries.len()
        invariant
            i <= entries@.len(),
            key@ == label@,
            labels_distinct(entries@),
            forall|j: int| 0 <= j < i ==> (#[trigger] entries@[j]).label@ != label@,
        decreases entries@.len() - i,
    {
        if entries[i].label == key {
            return Some(i);
        }
        i += 1;
    }
    None
}

impl<A> TextureManager<A> {
    #[verifier::type_invariant]
    spec fn well_formed(self) -> bool {
        labels_distinct(self.textures@)
    }

    /// The live handles, keyed by label.
    pub closed spec fn view(&self) -> Map<Seq<char>, TextureHandle<A>> {
        keyed(self.textures@)
    }

    /// How many allocations the manager has installed since it was made.
    pub closed spec fn allocations(&self) -> u64 {
        self.allocations
    }

    /// How many allocations the manager has released since it was made.
    pub closed spec fn releases(&self) -> u64 {
        self.releases
    }

    /// Whether `ensure_texture` would have to allocate for this request.
    pub open spec fn must_allocate(&self, label: Seq<char>, size: TextureSize) -> bool {
        !self@.contains_key(label) || self@[label].size != size
    }

    /// A manager with no surfaces and both counters at zero.
    pub fn new() -> (manager: Self)
        ensures
            manager@ == Map::<Seq<char>, TextureHandle<A>>::empty(),
            manager.allocations() == 0,
            manager.releases() == 0,
    {
        let manager = TextureManager { textures: Vec::new(), allocations: 0, releases: 0 };
        assert(manager@ =~= Map::<Seq<char>, TextureHandle<A>>::empty());
        manager
    }

    /// Index of the entry that carries `label`, if any.
    fn position(&self, label: &str) -> (found: Option<usize>)
        ensures
            match found {
                Some(i) => i < self.textures@.len() && self.textures@[i as int].label@ == label@
                    && self@.contains_key(label@) && self@[label@] == self.textures@[i as int],
                None => !self@.contains_key(label@),
            },
    {
        proof {
            use_type_invariant(self);
        }
        find_label(&self.textures, label)
    }

    /// Number of allocations installed so far (it stops counting at `u64::MAX`).
    pub fn allocation_count(&self) -> (n: u64)
        ensures
            n == self.allocations(),
    {
        self.allocations
    }

    /// Number of allocations released so far (it stops counting at `u64::MAX`).
    pub fn release_count(&self) -> (n: u64)
        ensures
            n == self.releases(),
    {
        self.releases
    }

    /// Whether a request for `label` at `size` cannot be served by the live
    /// surface: none exists under that label, or the one that does has
    /// another size.
    pub fn needs_allocation(&self, label: &str, size: TextureSize) -> (needed: bool)
        ensures
            needed == self.must_allocate(label@, size),
    {
        match self.position(label) {
            Some(i) => self.textures[i].size != size,
            None => true,
        }
    }

    /// The live handle for `label`.
    ///
    /// Fails with `ResourceNotAllocated`, naming the label, exactly when no
    /// surface is live under it.
    pub fn get(&self, label: &str) -> (found: Result<&TextureHandle<A>, CoreError>)
        ensures
            self@.contains_key(label@) ==> found == Ok::<&TextureHandle<A>, CoreError>(
                &self@[label@],
            ) && self@[label@].label@ == label@,
            !self@.contains_key(label@) ==> (found matches Err(
                CoreError::ResourceNotAllocated { label: missing },
            ) && missing@ == label@),
    {
        match self.position(label) {
            Some(i) => Ok(&self.textures[i]),
            None => Err(CoreError::ResourceNotAllocated { label: label.to_owned() }),
        }
    }

    /// How `ensure_texture` relates the manager `before` the call to `self`
    /// after it, given what the call returned.
    ///
    /// Where no allocation was needed nothing changes. Otherwise a surface of
    /// another size under `label` is gone and counted as released, and either
    /// `allocate` succeeded, and its allocation is installed with `size` and
    /// counted, or it failed, its error is the outcome and `label` has no
    /// surface. Surfaces under other labels are untouched either way.
    pub open spec fn reconciled<D, F: FnOnce(&D, &SurfaceDescriptor) -> Result<A, CoreError>>(
        &self,
        before: &Self,
        device: &D,
        allocate: F,
        label: Seq<char>,
        size: TextureSize,
        outcome: Result<(), CoreError>,
    ) -> bool {
        if !before.must_allocate(label, size) {
            outcome is Ok && *self == *before
        } else {
            &&& self.releases() == (if before@.contains_key(label) {
                counted(before.releases())
            } else {
                before.releases()
            })
            &&& match outcome {
                Ok(()) => {
                    &&& self@.contains_key(label)
                    &&& self@[label].label@ == label
                    &&& self@[label].size == size
                    &&& yields(allocate, device, label, size, Ok(self@[label].allocation))
                    &&& self@.remove(label) == before@.remove(label)
                    &&& self.allocations() == counted(before.allocations())
                },
                Err(e) => {
                    &&& yields(allocate, device, label, size, Err(e))
                    &&& self@ == before@.remove(label)
                    &&& self.allocations() == before.allocations()
                },
            }
        }
    }

    /// Makes sure a surface of exactly `size` is live under `label`.
    ///
    /// A live surface of the right size is kept and `allocate` is not called.
    /// Otherwise a surface of another size is released first, then `allocate`
    /// is called once with `device` and the descriptor that
    /// `surface_descriptor` gives for `label` and `size`: on success its
    /// allocation is installed, on failure its error is handed on and the
    /// label is left without a surface.
    pub fn ensure_texture<D, F>(
        &mut self,
        device: &D,
        allocate: F,
        label: &str,
        size: TextureSize,
    ) -> (outcome: Result<(), CoreError>) where
        F: FnOnce(&D, &SurfaceDescriptor) -> Result<A, CoreError>,

        requires
            old(self).must_allocate(label@, size) ==> accepts(allocate, device, label@, size),
        ensures
            final(self).reconciled(old(self), device, allocate, label@, size, outcome),
    {
        proof {
            use_type_invariant(&*self);
        }
        let mut entries: Vec<TextureHandle<A>> = Vec::new();
        std::mem::swap(&mut self.textures, &mut entries);
        let ghost before = entries@;
        match find_label(&entries, label) {
            Some(i) => {
                if entries[i].size == size {
                    self.textures = entries;
                    return Ok(());
                }
                let _ = entries.remove(i);
                if self.releases < u64::MAX {
                    self.releases = self.releases + 1;
                }
                proof {
                    Self::lemma_view_after_remove(before, i as int, label@);
                }
            },
            None => {
                assert(keyed(before) =~= keyed(before).remove(label@));
            },
        }
        let ghost kept = entries@;
        let descriptor = surface_descriptor(label, size);
        match allocate(device, &descriptor) {
            Ok(allocation) => {
                entries.push(TextureHandle { label: label.to_owned(), allocation, size });
                if self.allocations < u64::MAX {
                    self.allocations = self.allocations + 1;
                }
                proof {
                    Self::lemma_view_after_push(kept, entries@[kept.len() as int]);
                    assert(keyed(entries@).remove(label@) =~= keyed(kept));
                }
                self.textures = entries;
                Ok(())
            },
            Err(e) => {
                self.textures = entries;
                Err(e)
            },
        }
    }

    /// Taking out the one entry that carries `label` removes exactly that
    /// label from the keyed view.
    proof fn lemma_view_after_remove(before: Seq<TextureHandle<A>>, i: int, label: Seq<char>)
        requires
            labels_distinct(before),
            0 <= i < before.len(),
            before[i].label@ == label,
        ensures
            labels_distinct(before.remove(i)),
            !has_label(before.remove(i), label),
            keyed(before.remove(i)) == keyed(before).remove(label),
    {
        let after = before.remove(i);
        assert forall|k: Seq<char>| has_label(after, k) <==> (has_label(before, k) && k
            != label) by {
            if has_label(after, k) {
                let j = index_of(after, k);
                if j < i {
                    assert(before[j].label@ == k);
                } else {
                    assert(before[j + 1].label@ == k);
                }
            }
            if has_label(before, k) && k != label {
                let j = index_of(before, k);
                if j < i {
                    assert(after[j].label@ == k);
                } else {
                    assert(after[j - 1].label@ == k);
                }
            }
        }
        assert forall|k: Seq<char>| has_label(after, k) implies after[index_of(after, k)]
            == before[index_of(before, k)] by {
            let j = index_of(after, k);
            if j < i {
                assert(before[j].label@ == k);
            } else {
                assert(before[j + 1].label@ == k);
            }
        }
        assert(keyed(after) =~= keyed(before).remove(label));
    }

    /// Appending an entry under a label that no entry carries adds exactly
    /// that entry to the keyed view.
    proof fn lemma_view_after_push(before: Seq<TextureHandle<A>>, fresh: TextureHandle<A>)
        requires
            labels_distinct(before),
            !has_label(before, fresh.label@),
        ensures
            labels_distinct(before.push(fresh)),
            keyed(before.push(fresh)) == keyed(before).insert(fresh.label@, fresh),
    {
        let after = before.push(fresh);
        let n = before.len() as int;
        assert forall|i: int, j: int|
            0 <= i < after.len() && 0 <= j < after.len() && i != j implies (#[trigger] after[i]).label@
            != (#[trigger] after[j]).label@ by {
            if i < n && j < n {
                assert(before[i].label@ != before[j].label@);
            } else if i < n {
                assert(before[i].label@ != fresh.label@);
            } else {
                assert(before[j].label@ != fresh.label@);
            }
        }
        assert forall|k: Seq<char>| has_label(after, k) <==> (has_label(before, k) || k
            == fresh.label@) by {
            if has_label(after, k) {
                let j = index_of(after, k);
                if j < n {
                    assert(before[j].label@ == k);
                }
            }
            if has_label(before, k) {
                let j = index_of(before, k);
                assert(after[j].label@ == k);
            }
            if k == fresh.label@ {
                assert(after[n].label@ == k);
            }
        }
        assert forall|k: Seq<char>| has_label(before, k) implies after[index_of(after, k)]
            == before[index_of(before, k)] by {
            assert(after[index_of(before, k)].label@ == k);
        }
        assert(after[n].label@ == fresh.label@);
        assert(after[index_of(after, fresh.label@)] == fresh);
        assert(keyed(after) =~= keyed(before).insert(fresh.label@, fresh));
    }
}

/// Ensuring the same label at the same size twice allocates at most once:
/// once the first call has succeeded, the second needs no allocation, succeeds
/// and leaves the manager exactly as the first call left it.
pub proof fn lemma_ensure_twice_allocates_once<A, D, F, G>(
    start: TextureManager<A>,
    middle: TextureManager<A>,
    end: TextureManager<A>,
    device: &D,
    first: F,
    second: G,
    label: Seq<char>,
    size: TextureSize,
    first_outcome: Result<(), CoreError>,
    second_outcome: Result<(), CoreError>,
) where
    F: FnOnce(&D, &SurfaceDescriptor) -> Result<A, CoreError>,
    G: FnOnce(&D, &SurfaceDescriptor) -> Result<A, CoreError>,

    requires
        middle.reconciled(&start, device, first, label, size, first_outcome),
        first_outcome is Ok,
        end.reconciled(&middle, device, second, label, size, second_outcome),
    ensures
        !middle.must_allocate(label, size),
        second_outcome is Ok,
        end == middle,
        end.allocations() == (if start.must_allocate(label, size) {
            counted(start.allocations())
        } else {
            start.allocations()
        }),
{
}

/// Ensuring a fresh label at one size and then at another allocates twice and
/// releases once, and the surface that is live afterwards has the second size.
pub proof fn lemma_resize_replaces_surface<A, D, F, G>(
    start: TextureManager<A>,
    middle: TextureManager<A>,
    end: TextureManager<A>,
    device: &D,
    first: F,
    second: G,
    label: Seq<char>,
    first_size: TextureSize,
    second_size: TextureSize,
    first_outcome: Result<(), CoreError>,
    second_outcome: Result<(), CoreError>,
) where
    F: FnOnce(&D, &SurfaceDescriptor) -> Result<A, CoreError>,
    G: FnOnce(&D, &SurfaceDescriptor) -> Result<A, CoreError>,

    requires
        !start@.contains_key(label),
        first_size != second_size,
        middle.reconciled(&start, device, first, label, first_size, first_outcome),
        first_outcome is Ok,
        end.reconciled(&middle, device, second, label, second_size, second_outcome),
        second_outcome is Ok,
    ensures
        end.allocations() == counted(counted(start.allocations())),
        end.releases() == counted(start.releases()),
        end@.contains_key(label),
        end@[label].size == second_size,
        yields(second, device, label, second_size, Ok(end@[label].allocation)),
        end@.remove(label) == start@,
{
    assert(start@.remove(label) =~= start@);
}

/// With allocators that cannot fail, ensuring a fresh label at one size and
/// then at another succeeds both times, the second call allocating once, for
/// the second size: two allocations and one release in all, and the one
/// surface that is live under the label afterwards is the second.
pub proof fn lemma_resize_with_unfailing_allocators<A, D, F, G>(
    start: TextureManager<A>,
    middle: TextureManager<A>,
    end: TextureManager<A>,
    device: &D,
    first: F,
    second: G,
    label: Seq<char>,
    first_size: TextureSize,
    second_size: TextureSize,
    first_outcome: Result<(), CoreError>,
    second_outcome: Result<(), CoreError>,
) where
    F: FnOnce(&D, &SurfaceDescriptor) -> Result<A, CoreError>,
    G: FnOnce(&D, &SurfaceDescriptor) -> Result<A, CoreError>,

    requires
        !start@.contains_key(label),
        first_size != second_size,
        never_fails(first, device, label, first_size),
        never_fails(second, device, label, second_size),
        middle.reconciled(&start, device, first, label, first_size, first_outcome),
        end.reconciled(&middle, device, second, label, second_size, second_outcome),
    ensures
        first_outcome is Ok,
        second_outcome is Ok,
        middle.allocations() == counted(start.allocations()),
        middle.releases() == start.releases(),
        end.allocations() == counted(middle.allocations()),
        end.releases() == counted(middle.releases()),
        end@.contains_key(label),
        end@[label].size == second_size,
        yields(second, device, label, second_size, Ok(end@[label].allocation)),
        end@.remove(label) == start@,
{
    if let Err(error) = first_outcome {
        assert(yields(first, device, label, first_size, Err::<A, CoreError>(error)));
    }
    if let Err(error) = second_outcome {
        assert(yields(second, device, label, second_size, Err::<A, CoreError>(error)));
    }
    assert(start@.remove(label) =~= start@);
}

/// Where the allocation for the new size fails, a resize has released the
/// surface of the old size all the same: one release is counted, no
/// allocation is, the label is left without a surface and the allocator's
/// error is the outcome.
pub proof fn lemma_failed_resize_leaves_label_empty<A, D, F>(
    before: TextureManager<A>,
    after: TextureManager<A>,
    device: &D,
    allocate: F,
    label: Seq<char>,
    size: TextureSize,
    error: CoreError,
) where F: FnOnce(&D, &SurfaceDescriptor) -> Result<A, CoreError>
    requires
        before@.contains_key(label),
        before@[label].size != size,
        after.reconciled(&before, device, allocate, label, size, Err(error)),
    ensures
        yields(allocate, device, label, size, Err::<A, CoreError>(error)),
        !after@.contains_key(label),
        after@ == before@.remove(label),
        after.allocations() == before.allocations(),
        after.releases() == counted(before.releases()),
{
}

} // verus!
