//! The per-frame diff: inspects the scene and the asset pool once per frame
//! and produces an [`UpdateRenderState`] holding only the fields that
//! actually changed.
//!
//! When the asset pool's dirty flag is set, the whole pool is re-uploaded:
//! the dense texture and sampler lists are rebuilt together with the
//! GPU-index map ([`RenderTextures`]) that bridges stable arena handles to
//! the tightly packed indices the GPU binding model requires. The instance
//! list is rebuilt when any instance changed or was removed, or when a new
//! index map exists; an instance whose texture or sampler handle no longer
//! resolves is silently dropped from the render set.

use vstd::prelude::*;

use crate::dense_storage::{lemma_occupied_upto, ArenaView, DenseStorage, DenseStorageIndex};
use crate::instance::{spec_pack_transform, Instance, InstanceView};
use crate::render_state::UpdateRenderState;
use crate::textures::{Sampler, Texture, TextureView, Textures};
use crate::uniforms::Uniforms;

verus! {

/// What a GPU-index map lookup returns for a handle: the dense index stored
/// for the handle's slot, provided the slot is present and was recorded
/// under the handle's generation.
pub open spec fn spec_resolve<T>(
    m: Seq<Option<(u32, u32)>>,
    h: DenseStorageIndex<T>,
) -> Option<u32> {
    if h.0 < m.len() && (m[h.0 as int] matches Some(p) && p.0 == h.1) {
        Some((m[h.0 as int]->0).1)
    } else {
        None
    }
}

/// `m` is the GPU-index map of arena state `a`: entry `i` carries the slot's
/// generation and its dense index when slot `i` is occupied, and nothing
/// when it is vacant.
pub open spec fn spec_index_map_of<T>(m: Seq<Option<(u32, u32)>>, a: ArenaView<T>) -> bool {
    &&& m.len() == a.slots.len()
    &&& forall|i: int|
        0 <= i < m.len() && (#[trigger] a.slots[i]).1 is Some ==> a.slots[i].0 <= u32::MAX
            && a.dense_index(i) <= u32::MAX && m[i] == Some(
            (a.slots[i].0 as u32, a.dense_index(i) as u32),
        )
    &&& forall|i: int|
        0 <= i < m.len() && (#[trigger] a.slots[i]).1 is None ==> m[i] is None
}

/// Looking a handle up in an arena's GPU-index map succeeds exactly when the
/// handle resolves in the arena, and then yields the slot's dense index. A
/// handle that went stale before the map was built — or that references a
/// slot removed before the build — resolves to nothing.
pub proof fn lemma_resolve_index_map<T>(
    m: Seq<Option<(u32, u32)>>,
    a: ArenaView<T>,
    h: DenseStorageIndex<T>,
)
    requires
        spec_index_map_of(m, a),
    ensures
        spec_resolve(m, h) is Some <==> a.valid(h),
        a.valid(h) ==> spec_resolve(m, h) == Some(a.dense_index(h.0 as int) as u32),
{
    if h.0 < m.len() {
        if a.slots[h.0 as int].1 is Some {
            assert(m[h.0 as int] == Some(
                (a.slots[h.0 as int].0 as u32, a.dense_index(h.0 as int) as u32),
            ));
        } else {
            assert(m[h.0 as int] is None);
        }
    }
}

/// The GPU-index maps from stable CPU handles to dense, 0-based GPU array
/// indices, one per asset kind. Rebuilt whenever the asset pool's dirty
/// flag is observed set.
pub struct RenderTextures {
    texture_indices: Vec<Option<(u32, u32)>>,
    sampler_indices: Vec<Option<(u32, u32)>>,
}

impl RenderTextures {
    /// The per-slot texture map: generation and dense index of each slot
    /// occupied at build time.
    pub closed spec fn textures_map(self) -> Seq<Option<(u32, u32)>> {
        self.texture_indices@
    }

    /// The per-slot sampler map.
    pub closed spec fn samplers_map(self) -> Seq<Option<(u32, u32)>> {
        self.sampler_indices@
    }

    /// Empty maps: every lookup fails until the first rebuild.
    pub fn new() -> (r: Self)
        ensures
            r.textures_map().len() == 0,
            r.samplers_map().len() == 0,
    {
        RenderTextures { texture_indices: Vec::new(), sampler_indices: Vec::new() }
    }

    /// Looks a texture handle up in the map.
    pub fn resolve_texture(&self, h: DenseStorageIndex<Texture>) -> (r: Option<u32>)
        ensures
            r == spec_resolve(self.textures_map(), h),
    {
        resolve(&self.texture_indices, h)
    }

    /// Looks a sampler handle up in the map.
    pub fn resolve_sampler(&self, h: DenseStorageIndex<Sampler>) -> (r: Option<u32>)
        ensures
            r == spec_resolve(self.samplers_map(), h),
    {
        resolve(&self.sampler_indices, h)
    }
}

/// Shared lookup over one per-slot map.
fn resolve<T>(m: &Vec<Option<(u32, u32)>>, h: DenseStorageIndex<T>) -> (r: Option<u32>)
    ensures
        r == spec_resolve(m@, h),
{
    if h.0 < m.len() {
        match m[h.0] {
            Some(p) => if p.0 == h.1 {
                Some(p.1)
            } else {
                None
            },
            None => None,
        }
    } else {
        None
    }
}

/// The map entry slot `i` has once the first `k` occupied slots are
/// recorded.
spec fn spec_partial_entry<T>(a: ArenaView<T>, i: int, k: int) -> Option<(u32, u32)> {
    if a.slots[i].1 is Some && a.dense_index(i) < k {
        Some((a.slots[i].0 as u32, a.dense_index(i) as u32))
    } else {
        None
    }
}

/// Builds the GPU-index map of an arena: one entry per slot, carrying the
/// generation and dense index of each occupied slot.
fn build_index_map<T>(arena: &DenseStorage<T>) -> (m: Vec<Option<(u32, u32)>>)
    requires
        arena@.slots.len() <= u32::MAX,
    ensures
        spec_index_map_of(m@, arena@),
{
    let ghost a = arena@;
    proof {
        lemma_occupied_upto(a, a.slots.len() as int);
    }
    let entries = arena.iter();
    let n = arena.slot_count();
    let mut m: Vec<Option<(u32, u32)>> = vec![None; n];
    let mut k: usize = 0;
    while k < entries.len()
        invariant
            arena@ == a,
            a.slots.len() <= u32::MAX,
            m@.len() == a.slots.len(),
            entries@.len() == a.occupied().len(),
            forall|j: int|
                0 <= j < entries@.len() ==> {
                    let i = a.occupied()[j];
                    &&& (#[trigger] entries@[j]).0.0 as int == i
                    &&& entries@[j].0.1 as nat == a.slots[i].0
                },
            forall|j: int|
                0 <= j < a.occupied().len() ==> {
                    let i = #[trigger] a.occupied()[j];
                    &&& 0 <= i < a.slots.len()
                    &&& a.slots[i].1 is Some
                    &&& a.dense_index(i) == j
                },
            forall|i: int|
                0 <= i < a.slots.len() && (#[trigger] a.slots[i]).1 is Some ==> a.dense_index(i)
                    < a.occupied().len() && a.occupied()[a.dense_index(i)] == i,
            k <= entries@.len(),
            forall|i: int|
                0 <= i < m@.len() ==> #[trigger] m@[i] == spec_partial_entry(a, i, k as int),
        decreases entries@.len() - k,
    {
        let h = entries[k].0;
        let ghost m_pre = m@;
        proof {
            assert(a.occupied()[k as int] == h.0 as int);
            assert(a.slots[h.0 as int].1 is Some);
            assert(a.dense_index(h.0 as int) == k as int);
        }
        m[h.0] = Some((h.1, k as u32));
        k += 1;
        proof {
            assert forall|i: int|
                0 <= i < m@.len() implies #[trigger] m@[i] == spec_partial_entry(
                a,
                i,
                k as int,
            ) by {
                if i == h.0 as int {
                    assert(a.slots[i].0 == h.1 as nat);
                } else {
                    assert(m@[i] == m_pre[i]);
                    if a.slots[i].1 is Some && a.dense_index(i) == k - 1 {
                        assert(a.occupied()[k - 1] == i);
                    }
                }
            }
        }
    }
    proof {
        assert forall|i: int|
            0 <= i < m@.len() && (#[trigger] a.slots[i]).1 is Some implies a.slots[i].0
            <= u32::MAX && a.dense_index(i) <= u32::MAX && m@[i] == Some(
            (a.slots[i].0 as u32, a.dense_index(i) as u32),
        ) by {
            assert(a.dense_index(i) < a.occupied().len());
            assert(a.occupied().len() <= a.slots.len());
            let j = a.dense_index(i);
            assert(a.occupied()[j] == i);
            assert(entries@[j].0.1 as nat == a.slots[i].0);
        }
    }
    m
}

/// The dense views of all live textures, in slot order: entry `k` is the
/// texture whose dense index is `k`.
pub open spec fn spec_dense_texture_views(a: ArenaView<Texture>) -> Seq<TextureView> {
    a.occupied().map_values(|i: int| a.slots[i].1->0@)
}

/// Clones the live textures into a dense list, in slot order.
fn dense_texture_list(arena: &DenseStorage<Texture>) -> (r: Vec<Texture>)
    ensures
        r@.map_values(|t: Texture| t@) == spec_dense_texture_views(arena@),
{
    let entries = arena.iter();
    let mut r: Vec<Texture> = Vec::new();
    let mut k: usize = 0;
    while k < entries.len()
        invariant
            entries@.len() == arena@.occupied().len(),
            forall|j: int|
                0 <= j < entries@.len() ==> {
                    let i = arena@.occupied()[j];
                    *(#[trigger] entries@[j]).1 == arena@.slots[i].1->0
                },
            k <= entries@.len(),
            r@.len() == k,
            forall|j: int|
                0 <= j < k ==> (#[trigger] r@[j])@ == arena@.slots[arena@.occupied()[j]].1->0@,
        decreases entries@.len() - k,
    {
        r.push(entries[k].1.clone());
        k += 1;
    }
    proof {
        assert(r@.map_values(|t: Texture| t@) =~= spec_dense_texture_views(arena@));
    }
    r
}

/// Collects one sampler per live sampler slot into a dense list.
fn dense_sampler_list(arena: &DenseStorage<Sampler>) -> (r: Vec<Sampler>)
    ensures
        r@.len() == arena@.occupied().len(),
{
    let entries = arena.iter();
    let mut r: Vec<Sampler> = Vec::new();
    let mut k: usize = 0;
    while k < entries.len()
        invariant
            entries@.len() == arena@.occupied().len(),
            k <= entries@.len(),
            r@.len() == k,
        decreases entries@.len() - k,
    {
        r.push(entries[k].1.clone());
        k += 1;
    }
    r
}

/// One live scene instance, as the scene layer reports it: the entity's
/// world transform (sixteen column-major entries) and the asset handles of
/// its material.
pub struct SceneInstance {
    /// World transform, sixteen entries in column-major order.
    pub transform: Vec<u32>,
    /// Handle of the texture the material references.
    pub texture: DenseStorageIndex<Texture>,
    /// Handle of the sampler the material references.
    pub sampler: DenseStorageIndex<Sampler>,
}

impl SceneInstance {
    /// The transform has exactly sixteen entries.
    pub open spec fn wf(self) -> bool {
        self.transform@.len() == 16
    }
}

/// The render set a scene resolves to against the GPU-index maps: each
/// instance whose texture and sampler handles both resolve contributes its
/// packed transform and dense indices, in scene order; the others are
/// dropped.
pub open spec fn spec_resolved_instances(
    scene: Seq<SceneInstance>,
    tm: Seq<Option<(u32, u32)>>,
    sm: Seq<Option<(u32, u32)>>,
) -> Seq<InstanceView>
    decreases scene.len(),
{
    if scene.len() == 0 {
        Seq::empty()
    } else {
        let rest = spec_resolved_instances(scene.drop_last(), tm, sm);
        let s = scene.last();
        if spec_resolve(tm, s.texture) is Some && spec_resolve(sm, s.sampler) is Some {
            rest.push(
                InstanceView {
                    transform: spec_pack_transform(s.transform@),
                    texture_index: spec_resolve(tm, s.texture)->0,
                    sampler_index: spec_resolve(sm, s.sampler)->0,
                },
            )
        } else {
            rest
        }
    }
}

/// Runs the per-frame diff and produces this frame's update descriptor.
///
/// The camera uniform is included exactly as handed in (the scene layer
/// computes it if and only if an active camera exists). If the asset pool's
/// dirty flag is set it is cleared, the dense asset lists and the GPU-index
/// maps are rebuilt from the arenas, and the textures field is present. The
/// instances field is present exactly when an instance changed or was
/// removed or the maps were rebuilt; it then holds the scene's render set
/// resolved against the current maps, instances with a non-resolving handle
/// silently dropped. Absent fields mean the corresponding GPU state is left
/// exactly as it is.
pub fn update_render_state(
    textures: &mut Textures,
    render_textures: &mut RenderTextures,
    uniforms: Option<Uniforms>,
    instances_changed: bool,
    instances_removed: bool,
    scene: &Vec<SceneInstance>,
) -> (update: UpdateRenderState)
    requires
        old(textures).wf(),
        old(textures).textures_view().slots.len() <= u32::MAX,
        old(textures).samplers_view().slots.len() <= u32::MAX,
        uniforms matches Some(u) ==> u.wf(),
        forall|k: int| 0 <= k < scene@.len() ==> (#[trigger] scene@[k]).wf(),
    ensures
        update.wf(),
        // the pool's arenas are untouched and its dirty flag is consumed
        final(textures).wf(),
        !final(textures).dirty(),
        final(textures).spec_textures() == old(textures).spec_textures(),
        final(textures).spec_samplers() == old(textures).spec_samplers(),
        // the uniform field passes through unchanged
        update.uniforms == uniforms,
        // textures: present exactly when the pool was dirty; then the maps
        // are rebuilt from the arenas and the dense lists match them
        update.textures is Some <==> old(textures).dirty(),
        old(textures).dirty() ==> {
            &&& spec_index_map_of(
                final(render_textures).textures_map(),
                old(textures).textures_view(),
            )
            &&& spec_index_map_of(
                final(render_textures).samplers_map(),
                old(textures).samplers_view(),
            )
            &&& (update.textures->0).0@.map_values(|t: Texture| t@) == spec_dense_texture_views(
                old(textures).textures_view(),
            )
            &&& (update.textures->0).1@.len() == old(textures).samplers_view().occupied().len()
        },
        !old(textures).dirty() ==> final(render_textures).textures_map() == old(
            render_textures,
        ).textures_map() && final(render_textures).samplers_map() == old(
            render_textures,
        ).samplers_map(),
        // instances: present exactly when something changed; then the list
        // is the scene resolved against the current maps
        update.instances is Some <==> (instances_changed || instances_removed || old(
            textures,
        ).dirty()),
        update.instances matches Some(l) ==> l@.map_values(|i: Instance| i@)
            == spec_resolved_instances(
            scene@,
            final(render_textures).textures_map(),
            final(render_textures).samplers_map(),
        ),
        scene@.len() == 0 && update.instances is Some ==> (update.instances->0)@.len() == 0,
{
    let was_dirty = textures.take_changed();
    let mut new_textures: Option<(Vec<Texture>, Vec<Sampler>)> = None;
    if was_dirty {
        let texture_indices = build_index_map(textures.get_textures());
        let sampler_indices = build_index_map(textures.get_samplers());
        let texture_list = dense_texture_list(textures.get_textures());
        let sampler_list = dense_sampler_list(textures.get_samplers());
        *render_textures = RenderTextures { texture_indices, sampler_indices };
        new_textures = Some((texture_list, sampler_list));
    }

    let rebuild_instances = instances_changed || instances_removed || new_textures.is_some();
    let mut instances: Option<Vec<Instance>> = None;
    if rebuild_instances {
        let ghost tm = render_textures.textures_map();
        let ghost sm = render_textures.samplers_map();
        let mut l: Vec<Instance> = Vec::new();
        let mut idx: usize = 0;
        while idx < scene.len()
            invariant
                forall|k: int| 0 <= k < scene@.len() ==> (#[trigger] scene@[k]).wf(),
                render_textures.textures_map() == tm,
                render_textures.samplers_map() == sm,
                idx <= scene@.len(),
                forall|k: int| 0 <= k < l@.len() ==> (#[trigger] l@[k]).wf(),
                l@.map_values(|i: Instance| i@) == spec_resolved_instances(
                    scene@.take(idx as int),
                    tm,
                    sm,
                ),
            decreases scene@.len() - idx,
        {
            let ghost l_pre = l@;
            let s = &scene[idx];
            match (render_textures.resolve_texture(s.texture), render_textures.resolve_sampler(
                s.sampler,
            )) {
                (Some(texture_index), Some(sampler_index)) => {
                    l.push(Instance::new(&s.transform, texture_index, sampler_index));
                },
                _ => {},
            }
            idx += 1;
            proof {
                assert(scene@.take(idx as int).drop_last() =~= scene@.take(idx as int - 1));
                assert(scene@.take(idx as int).last() == scene@[idx as int - 1]);
                assert(l@.map_values(|i: Instance| i@) =~= spec_resolved_instances(
                    scene@.take(idx as int),
                    tm,
                    sm,
                ));
            }
        }
        proof {
            assert(scene@.take(scene@.len() as int) =~= scene@);
        }
        instances = Some(l);
    }

    UpdateRenderState { uniforms, instances, textures: new_textures }
}

} // verus!
