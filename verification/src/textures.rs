//! The CPU-side asset pool: one generational arena of textures and one of
//! samplers, plus a single dirty flag. Every mutating access sets the flag;
//! the per-frame synchronization pass consumes it and re-uploads the whole
//! pool when it was set.

use vstd::prelude::*;

use crate::dense_storage::{ArenaView, DenseStorage};

verus! {

/// The mathematical value of a [`Texture`].
pub ghost struct TextureView {
    pub size: (u32, u32),
    pub data: Seq<u8>,
}

/// Holds texture data (Rgba8).
pub struct Texture {
    /// Pixel dimensions (width, height).
    pub size: (u32, u32),
    /// Raw RGBA8 bytes, four per pixel, rows in order.
    pub data: Vec<u8>,
}

impl View for Texture {
    type V = TextureView;

    open spec fn view(&self) -> TextureView {
        TextureView { size: self.size, data: self.data@ }
    }
}

impl Clone for Texture {
    fn clone(&self) -> (r: Self)
        ensures
            r@ == self@,
    {
        Texture { size: self.size, data: self.data.clone() }
    }
}

/// Holds sampler data.
pub struct Sampler;

impl Clone for Sampler {
    fn clone(&self) -> (r: Self) {
        Sampler
    }
}

/// Holds textures and samplers, with a dirty flag set on any mutating
/// access and cleared once the synchronization pass consumes it.
pub struct Textures {
    textures: DenseStorage<Texture>,
    samplers: DenseStorage<Sampler>,
    changed: bool,
}

impl Textures {
    /// The texture arena.
    pub closed spec fn spec_textures(self) -> DenseStorage<Texture> {
        self.textures
    }

    /// The sampler arena.
    pub closed spec fn spec_samplers(self) -> DenseStorage<Sampler> {
        self.samplers
    }

    /// The model of the texture arena.
    pub open spec fn textures_view(self) -> ArenaView<Texture> {
        self.spec_textures()@
    }

    /// The model of the sampler arena.
    pub open spec fn samplers_view(self) -> ArenaView<Sampler> {
        self.spec_samplers()@
    }

    /// Whether the pool changed since the flag was last consumed.
    pub closed spec fn dirty(self) -> bool {
        self.changed
    }

    /// Both arenas satisfy their invariant.
    pub open spec fn wf(self) -> bool {
        &&& self.textures_view().wf()
        &&& self.samplers_view().wf()
    }

    /// Read-only access to the texture arena; does not set the dirty flag.
    pub fn get_textures(&self) -> (r: &DenseStorage<Texture>)
        ensures
            *r == self.spec_textures(),
    {
        &self.textures
    }

    /// Mutable access to the texture arena; sets the dirty flag.
    pub fn get_textures_mut(&mut self) -> (r: &mut DenseStorage<Texture>)
        ensures
            *r == old(self).spec_textures(),
            final(self).spec_textures() == *final(r),
            final(self).spec_samplers() == old(self).spec_samplers(),
            final(self).dirty(),
    {
        self.changed = true;
        &mut self.textures
    }

    /// Read-only access to the sampler arena; does not set the dirty flag.
    pub fn get_samplers(&self) -> (r: &DenseStorage<Sampler>)
        ensures
            *r == self.spec_samplers(),
    {
        &self.samplers
    }

    /// Mutable access to the sampler arena; sets the dirty flag.
    pub fn get_samplers_mut(&mut self) -> (r: &mut DenseStorage<Sampler>)
        ensures
            *r == old(self).spec_samplers(),
            final(self).spec_samplers() == *final(r),
            final(self).spec_textures() == old(self).spec_textures(),
            final(self).dirty(),
    {
        self.changed = true;
        &mut self.samplers
    }

    /// Consumes the dirty flag: returns whether the pool changed since the
    /// last consumption and clears the flag. The arenas are untouched.
    pub(crate) fn take_changed(&mut self) -> (was_dirty: bool)
        ensures
            was_dirty == old(self).dirty(),
            !final(self).dirty(),
            final(self).spec_textures() == old(self).spec_textures(),
            final(self).spec_samplers() == old(self).spec_samplers(),
    {
        let was_dirty = self.changed;
        self.changed = false;
        was_dirty
    }
}

impl Default for Textures {
    /// An empty pool with a clear dirty flag.
    fn default() -> (r: Self)
        ensures
            r.wf(),
            !r.dirty(),
            r.textures_view().slots.len() == 0,
            r.samplers_view().slots.len() == 0,
    {
        Textures { textures: DenseStorage::new(), samplers: DenseStorage::new(), changed: false }
    }
}

} // verus!
