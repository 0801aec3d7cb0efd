//! Bookkeeping for the GPU-resident render state: the uniform buffer, the
//! growable instance buffer and the bind groups referencing them.
//!
//! Device resources are tracked by stable numeric identities. Applying an
//! [`UpdateRenderState`] mutates the bookkeeping and returns the exact list
//! of device operations ([`RenderCommand`]s) a device layer must carry out;
//! an absent update field touches nothing. A bind group is rebuilt exactly
//! when the buffer identity it references changes, so no binding ever points
//! at a freed buffer.

use vstd::prelude::*;

use crate::array_buffer::ArrayBuffer;
use crate::instance::Instance;
use crate::textures::{Sampler, Texture};
use crate::uniforms::Uniforms;

verus! {

/// Used to update a `RenderState` with new data. Any `None` fields will be
/// left untouched.
pub struct UpdateRenderState {
    /// New uniform contents, if the camera state changed this frame.
    pub uniforms: Option<Uniforms>,
    /// The full new instance list, if the render set changed this frame.
    pub instances: Option<Vec<Instance>>,
    /// Dense texture and sampler lists, if the asset pool changed this frame.
    pub textures: Option<(Vec<Texture>, Vec<Sampler>)>,
}

impl UpdateRenderState {
    /// Present fields are well-formed.
    pub open spec fn wf(self) -> bool {
        &&& self.uniforms matches Some(u) ==> u.wf()
        &&& self.instances matches Some(l) ==> forall|k: int|
            0 <= k < l@.len() ==> (#[trigger] l@[k]).wf()
    }
}

/// One device operation the device layer must perform, in list order, to
/// realize an applied update.
pub enum RenderCommand {
    /// Overwrite the single element of the uniform buffer in place.
    WriteUniforms(Uniforms),
    /// Allocate a device buffer under the given identity, initialized with
    /// the given elements.
    CreateInstanceBuffer(u64, Vec<Instance>),
    /// Write the elements into the buffer with the given identity, starting
    /// at offset 0, without reallocating it.
    WriteInstanceBuffer(u64, Vec<Instance>),
    /// Create the bind group (first identity) exposing the instance buffer
    /// (second identity) to the shader stage.
    CreateInstanceBindGroup(u64, u64),
    /// Create the texture/sampler bind group under the given identity from
    /// the dense asset lists. An empty list is backed by a single
    /// placeholder resource, since a binding array may not be empty.
    CreateTextureBindGroup(u64, Vec<Texture>, Vec<Sampler>),
}

/// Manages the buffers and bind groups backing the render pipeline.
pub struct RenderState {
    uniform_buffer_id: u64,
    uniform_bind_group_id: u64,
    uniform_contents: Ghost<Uniforms>,
    instance_buffer: ArrayBuffer<Instance>,
    instance_bind_group_id: u64,
    instance_binding_buffer: u64,
    texture_bind_group_id: u64,
    bound_textures: Ghost<Seq<Texture>>,
    bound_samplers: Ghost<Seq<Sampler>>,
    dummy_instance_buffer_id: u64,
    next_id: u64,
}

impl RenderState {
    /// Identity of the uniform buffer (never changes: it is written in
    /// place, uniform buffers never grow).
    pub closed spec fn spec_uniform_buffer_id(self) -> u64 {
        self.uniform_buffer_id
    }

    /// Identity of the uniform bind group (never rebuilt).
    pub closed spec fn spec_uniform_bind_group_id(self) -> u64 {
        self.uniform_bind_group_id
    }

    /// The uniform values currently in the uniform buffer.
    pub closed spec fn spec_uniforms(self) -> Uniforms {
        self.uniform_contents@
    }

    /// Identity of the device buffer currently backing the instance list.
    pub closed spec fn spec_instance_buffer_id(self) -> u64 {
        self.instance_buffer.id()
    }

    /// Allocated capacity of the instance buffer, in elements.
    pub closed spec fn spec_instance_capacity(self) -> nat {
        self.instance_buffer.spec_capacity()
    }

    /// Logical length of the instance buffer, in elements: the instance
    /// count the next draw must use.
    pub closed spec fn spec_instance_count(self) -> nat {
        self.instance_buffer.spec_len()
    }

    /// The instances the device buffer currently holds.
    pub closed spec fn spec_instances(self) -> Seq<Instance> {
        self.instance_buffer.contents()
    }

    /// Identity of the bind group exposing the instance buffer.
    pub closed spec fn spec_instance_bind_group_id(self) -> u64 {
        self.instance_bind_group_id
    }

    /// Identity of the buffer the instance bind group points at: the
    /// instance buffer itself, or the placeholder buffer while the instance
    /// buffer was empty when the bind group was last built.
    pub closed spec fn spec_instance_binding_buffer(self) -> u64 {
        self.instance_binding_buffer
    }

    /// Identity of the texture/sampler bind group.
    pub closed spec fn spec_texture_bind_group_id(self) -> u64 {
        self.texture_bind_group_id
    }

    /// The dense texture list the texture bind group was built from.
    pub closed spec fn spec_bound_textures(self) -> Seq<Texture> {
        self.bound_textures@
    }

    /// The dense sampler list the texture bind group was built from.
    pub closed spec fn spec_bound_samplers(self) -> Seq<Sampler> {
        self.bound_samplers@
    }

    /// Identity of the one-element placeholder buffer bound while the
    /// instance buffer is empty (a binding may not reference an empty
    /// buffer).
    pub closed spec fn spec_dummy_instance_buffer_id(self) -> u64 {
        self.dummy_instance_buffer_id
    }

    /// All identities handed out so far are below this bound; fresh
    /// identities are taken from it, so they differ from every identity in
    /// use.
    pub closed spec fn spec_next_id(self) -> u64 {
        self.next_id
    }

    /// The bind group exposing the instance buffer references a buffer that
    /// is still alive: the current instance buffer or the placeholder. A
    /// reallocation frees the old buffer, so a binding still naming it
    /// would be dangling; `wf` rules that out after every operation.
    pub open spec fn binding_live(self) -> bool {
        self.spec_instance_binding_buffer() == self.spec_instance_buffer_id()
            || self.spec_instance_binding_buffer() == self.spec_dummy_instance_buffer_id()
    }

    /// Structural invariant: the buffer bookkeeping is consistent, all
    /// identities are below the freshness bound, buffers and bind groups
    /// have pairwise distinct identities, and the instance binding points at
    /// a live buffer.
    pub open spec fn wf(self) -> bool {
        &&& self.spec_uniforms().wf()
        &&& forall|k: int|
            0 <= k < self.spec_instances().len() ==> (#[trigger] self.spec_instances()[k]).wf()
        &&& self.inv_buffer()
        &&& self.inv_ids()
        &&& self.binding_live()
    }

    /// The instance buffer's own invariant.
    pub closed spec fn inv_buffer(self) -> bool {
        self.instance_buffer.wf()
    }

    /// Identity bookkeeping invariant.
    pub closed spec fn inv_ids(self) -> bool {
        &&& self.uniform_buffer_id < self.next_id
        &&& self.uniform_bind_group_id < self.next_id
        &&& self.instance_buffer.id() < self.next_id
        &&& self.dummy_instance_buffer_id < self.next_id
        &&& self.instance_bind_group_id < self.next_id
        &&& self.texture_bind_group_id < self.next_id
        &&& self.uniform_buffer_id != self.instance_buffer.id()
        &&& self.uniform_buffer_id != self.dummy_instance_buffer_id
        &&& self.instance_buffer.id() != self.dummy_instance_buffer_id
        &&& self.uniform_bind_group_id != self.instance_bind_group_id
        &&& self.uniform_bind_group_id != self.texture_bind_group_id
        &&& self.instance_bind_group_id != self.texture_bind_group_id
    }

    /// Creates a new `RenderState` whose buffers and bind groups hold the
    /// provided data. The device layer creates the matching resources under
    /// the identities this bookkeeping reports: uniform buffer 0, uniform
    /// bind group 1, instance buffer 2, placeholder instance buffer 3,
    /// instance bind group 4, texture bind group 5.
    pub fn new(
        uniforms: &Uniforms,
        instances: &Vec<Instance>,
        textures: &Vec<Texture>,
        samplers: &Vec<Sampler>,
    ) -> (r: Self)
        requires
            uniforms.wf(),
            forall|k: int| 0 <= k < instances@.len() ==> (#[trigger] instances@[k]).wf(),
        ensures
            r.wf(),
            r.spec_next_id() == 6,
            r.spec_uniforms() == *uniforms,
            r.spec_instance_capacity() == instances@.len(),
            r.spec_instance_count() == instances@.len(),
            r.spec_instances() == instances@,
            r.spec_bound_textures() == textures@,
            r.spec_bound_samplers() == samplers@,
            r.spec_instance_binding_buffer() == if instances@.len() == 0 {
                r.spec_dummy_instance_buffer_id()
            } else {
                r.spec_instance_buffer_id()
            },
    {
        let instance_buffer = ArrayBuffer::new(2, instances);
        let binding = if instance_buffer.len() == 0 {
            3
        } else {
            instance_buffer.buffer_id()
        };
        RenderState {
            uniform_buffer_id: 0,
            uniform_bind_group_id: 1,
            uniform_contents: Ghost(*uniforms),
            instance_buffer,
            instance_bind_group_id: 4,
            instance_binding_buffer: binding,
            texture_bind_group_id: 5,
            bound_textures: Ghost(textures@),
            bound_samplers: Ghost(samplers@),
            dummy_instance_buffer_id: 3,
            next_id: 6,
        }
    }

    /// The device operations realizing an update applied to this state, in
    /// order: the uniform write if requested; then the instance write —
    /// in place if the data fits, else a fresh allocation followed by a
    /// rebuild of the instance bind group pointing at it; then the texture
    /// bind group rebuild if requested.
    pub open spec fn spec_commands(self, update: UpdateRenderState) -> Seq<RenderCommand> {
        let uniform_cmds: Seq<RenderCommand> = match update.uniforms {
            Some(u) => seq![RenderCommand::WriteUniforms(u)],
            None => seq![],
        };
        let instance_cmds: Seq<RenderCommand> = match update.instances {
            Some(l) => if l@.len() > self.spec_instance_capacity() {
                seq![
                    RenderCommand::CreateInstanceBuffer(self.spec_next_id(), l),
                    RenderCommand::CreateInstanceBindGroup(
                        (self.spec_next_id() + 1) as u64,
                        if l@.len() == 0 {
                            self.spec_dummy_instance_buffer_id()
                        } else {
                            self.spec_next_id()
                        },
                    ),
                ]
            } else {
                seq![RenderCommand::WriteInstanceBuffer(self.spec_instance_buffer_id(), l)]
            },
            None => seq![],
        };
        let texture_cmds: Seq<RenderCommand> = match update.textures {
            Some(ts) => seq![
                RenderCommand::CreateTextureBindGroup(
                    (self.spec_next_id() + self.spec_instance_ids_used(update)) as u64,
                    ts.0,
                    ts.1,
                ),
            ],
            None => seq![],
        };
        uniform_cmds + instance_cmds + texture_cmds
    }

    /// How many fresh identities the instance part of an update consumes:
    /// two (buffer and bind group) on reallocation, none otherwise.
    pub open spec fn spec_instance_ids_used(self, update: UpdateRenderState) -> int {
        match update.instances {
            Some(l) => if l@.len() > self.spec_instance_capacity() {
                2int
            } else {
                0int
            },
            None => 0int,
        }
    }

    /// Updates the buffers and bind groups with the provided data and
    /// returns the device operations to perform. Each sub-resource is
    /// touched exactly when its field is present: absent fields leave the
    /// corresponding buffer and bind group identities (and contents)
    /// untouched. The instance bind group is rebuilt exactly when the
    /// instance buffer was reallocated, and the texture bind group exactly
    /// when the textures field is present.
    pub fn update_render_state(&mut self, update: UpdateRenderState) -> (cmds: Vec<RenderCommand>)
        requires
            old(self).wf(),
            update.wf(),
            old(self).spec_next_id() + 3 <= u64::MAX,
        ensures
            final(self).wf(),
            cmds@ == old(self).spec_commands(update),
            final(self).spec_next_id() <= old(self).spec_next_id() + 3,
            // identities that never change
            final(self).spec_uniform_buffer_id() == old(self).spec_uniform_buffer_id(),
            final(self).spec_uniform_bind_group_id() == old(self).spec_uniform_bind_group_id(),
            final(self).spec_dummy_instance_buffer_id() == old(self).spec_dummy_instance_buffer_id(),
            // uniforms: written in place, never reallocated
            final(self).spec_uniforms() == match update.uniforms {
                Some(u) => u,
                None => old(self).spec_uniforms(),
            },
            // instances: absent field leaves buffer and bind group untouched
            update.instances is None ==> {
                &&& final(self).spec_instance_buffer_id() == old(self).spec_instance_buffer_id()
                &&& final(self).spec_instance_capacity() == old(self).spec_instance_capacity()
                &&& final(self).spec_instance_count() == old(self).spec_instance_count()
                &&& final(self).spec_instances() == old(self).spec_instances()
                &&& final(self).spec_instance_bind_group_id() == old(self).spec_instance_bind_group_id()
                &&& final(self).spec_instance_binding_buffer() == old(self).spec_instance_binding_buffer()
            },
            update.instances matches Some(l) ==> {
                let resized = l@.len() > old(self).spec_instance_capacity();
                &&& final(self).spec_instance_count() == l@.len()
                &&& final(self).spec_instances() == l@
                &&& resized ==> {
                    &&& final(self).spec_instance_capacity() == l@.len()
                    &&& final(self).spec_instance_buffer_id() != old(self).spec_instance_buffer_id()
                    &&& final(self).spec_instance_bind_group_id() != old(self).spec_instance_bind_group_id()
                    &&& final(self).spec_instance_binding_buffer() == final(self).spec_instance_buffer_id()
                }
                &&& !resized ==> {
                    &&& final(self).spec_instance_capacity() == old(self).spec_instance_capacity()
                    &&& final(self).spec_instance_buffer_id() == old(self).spec_instance_buffer_id()
                    &&& final(self).spec_instance_bind_group_id() == old(self).spec_instance_bind_group_id()
                    &&& final(self).spec_instance_binding_buffer() == old(self).spec_instance_binding_buffer()
                }
            },
            // textures: absent field leaves the bind group untouched; a
            // present field rebuilds it under a fresh identity
            update.textures is None ==> {
                &&& final(self).spec_texture_bind_group_id() == old(self).spec_texture_bind_group_id()
                &&& final(self).spec_bound_textures() == old(self).spec_bound_textures()
                &&& final(self).spec_bound_samplers() == old(self).spec_bound_samplers()
            },
            update.textures matches Some(ts) ==> {
                &&& final(self).spec_texture_bind_group_id() != old(self).spec_texture_bind_group_id()
                &&& final(self).spec_bound_textures() == ts.0@
                &&& final(self).spec_bound_samplers() == ts.1@
            },
    {
        let ghost spec_update = update;
        let UpdateRenderState { uniforms, instances, textures } = update;
        let mut cmds: Vec<RenderCommand> = Vec::new();

        if let Some(u) = uniforms {
            proof {
                self.uniform_contents@ = u;
            }
            cmds.push(RenderCommand::WriteUniforms(u));
        }

        if let Some(instance_data) = instances {
            let resized = self.instance_buffer.write_buffer(&instance_data, self.next_id);
            if resized {
                let buffer_id = self.next_id;
                self.next_id = self.next_id + 1;
                let bind_group_id = self.next_id;
                self.next_id = self.next_id + 1;
                self.instance_bind_group_id = bind_group_id;
                let target = if self.instance_buffer.len() == 0 {
                    self.dummy_instance_buffer_id
                } else {
                    self.instance_buffer.buffer_id()
                };
                self.instance_binding_buffer = target;
                cmds.push(RenderCommand::CreateInstanceBuffer(buffer_id, instance_data));
                cmds.push(RenderCommand::CreateInstanceBindGroup(bind_group_id, target));
            } else {
                cmds.push(
                    RenderCommand::WriteInstanceBuffer(
                        self.instance_buffer.buffer_id(),
                        instance_data,
                    ),
                );
            }
        }

        if let Some((texture_data, sampler_data)) = textures {
            let bind_group_id = self.next_id;
            self.next_id = self.next_id + 1;
            self.texture_bind_group_id = bind_group_id;
            proof {
                self.bound_textures@ = texture_data@;
                self.bound_samplers@ = sampler_data@;
            }
            cmds.push(
                RenderCommand::CreateTextureBindGroup(bind_group_id, texture_data, sampler_data),
            );
        }

        proof {
            assert(cmds@ =~= old(self).spec_commands(update));
            assert forall|k: int|
                0 <= k < self.spec_instances().len() implies (#[trigger] self.spec_instances()[k]).wf() by {
                if spec_update.instances is Some {
                    assert(self.spec_instances() == spec_update.instances->0@);
                    assert(spec_update.instances->0@[k].wf());
                } else {
                    assert(self.spec_instances() == old(self).spec_instances());
                    assert(old(self).spec_instances()[k].wf());
                }
            }
        }
        cmds
    }

    /// Gets the bind group identities in binding order: uniform, instance,
    /// texture.
    pub fn get_bind_groups(&self) -> (r: (u64, u64, u64))
        ensures
            r.0 == self.spec_uniform_bind_group_id(),
            r.1 == self.spec_instance_bind_group_id(),
            r.2 == self.spec_texture_bind_group_id(),
    {
        (self.uniform_bind_group_id, self.instance_bind_group_id, self.texture_bind_group_id)
    }

    /// Gets the amount of instances currently in the instance buffer: the
    /// instance count the next draw must use (never the capacity).
    pub fn get_instance_count(&self) -> (n: usize)
        ensures
            n == self.spec_instance_count(),
    {
        self.instance_buffer.len()
    }

    /// Identity of the device buffer currently backing the instance list.
    pub fn instance_buffer_id(&self) -> (id: u64)
        ensures
            id == self.spec_instance_buffer_id(),
    {
        self.instance_buffer.buffer_id()
    }

    /// Identity of the buffer the instance bind group points at.
    pub fn instance_binding_buffer(&self) -> (id: u64)
        ensures
            id == self.spec_instance_binding_buffer(),
    {
        self.instance_binding_buffer
    }

    /// Allocated capacity of the instance buffer, in elements.
    pub fn instance_buffer_capacity(&self) -> (n: usize)
        ensures
            n == self.spec_instance_capacity(),
    {
        self.instance_buffer.capacity()
    }

    /// Identity of the uniform buffer.
    pub fn uniform_buffer_id(&self) -> (id: u64)
        ensures
            id == self.spec_uniform_buffer_id(),
    {
        self.uniform_buffer_id
    }

    /// Whether enough fresh identities remain for one more update (an
    /// update consumes at most three). Exhausting the 64-bit identity space
    /// is a fatal resource condition, like any other allocation failure.
    pub fn has_id_headroom(&self) -> (r: bool)
        ensures
            r == (self.spec_next_id() + 3 <= u64::MAX),
    {
        self.next_id <= u64::MAX - 3
    }

    /// Identity of the placeholder instance buffer.
    pub fn dummy_instance_buffer_id(&self) -> (id: u64)
        ensures
            id == self.spec_dummy_instance_buffer_id(),
    {
        self.dummy_instance_buffer_id
    }
}

} // verus!
