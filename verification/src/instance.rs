//! Per-instance data handed to the shader: a packed world transform plus the
//! dense indices of the texture and sampler the instance samples from.
//!
//! Matrix entries are carried as the 32-bit patterns of the scene's scalar
//! values; this layer never interprets them, it only rearranges and routes
//! them, so the packing is pure data movement and fully specified.

use vstd::prelude::*;

verus! {

/// A 4x4 matrix in column-major element order (entry `(row, col)` at
/// position `col * 4 + row`) packed to its transposed affine part: the first
/// three rows of the transpose, i.e. twelve entries, the implicit fourth row
/// being `0, 0, 0, 1`.
pub open spec fn spec_pack_transform(m: Seq<u32>) -> Seq<u32> {
    Seq::new(12, |k: int| m[(k % 4) * 4 + k / 4])
}

/// The mathematical value of an [`Instance`].
pub ghost struct InstanceView {
    pub transform: Seq<u32>,
    pub texture_index: u32,
    pub sampler_index: u32,
}

/// Holds instance data that will be passed to the shader.
pub struct Instance {
    /// Transposed affine matrix (twelve entries; the dropped row is 0,0,0,1).
    pub transform: Vec<u32>,
    /// The dense index of the texture to use when drawing this instance.
    pub texture_index: u32,
    /// The dense index of the sampler to use when sampling the texture.
    pub sampler_index: u32,
}

impl View for Instance {
    type V = InstanceView;

    open spec fn view(&self) -> InstanceView {
        InstanceView {
            transform: self.transform@,
            texture_index: self.texture_index,
            sampler_index: self.sampler_index,
        }
    }
}

impl Instance {
    /// The packed transform has exactly twelve entries.
    pub open spec fn wf(self) -> bool {
        self.transform@.len() == 12
    }

    /// Creates a new `Instance` with the provided options. The column-major
    /// transformation matrix is packed to its transposed affine part to save
    /// space.
    pub fn new(transform: &Vec<u32>, texture_index: u32, sampler_index: u32) -> (r: Self)
        requires
            transform@.len() == 16,
        ensures
            r.wf(),
            r.transform@ == spec_pack_transform(transform@),
            r.texture_index == texture_index,
            r.sampler_index == sampler_index,
    {
        Instance { transform: pack_transform(transform), texture_index, sampler_index }
    }
}

/// Packs a column-major 4x4 matrix into the first three rows of its
/// transpose.
fn pack_transform(transform: &Vec<u32>) -> (r: Vec<u32>)
    requires
        transform@.len() == 16,
    ensures
        r@ == spec_pack_transform(transform@),
{
    let mut r: Vec<u32> = Vec::new();
    let mut k: usize = 0;
    while k < 12
        invariant
            transform@.len() == 16,
            k <= 12,
            r@.len() == k,
            forall|j: int| 0 <= j < k ==> r@[j] == transform@[(j % 4) * 4 + j / 4],
        decreases 12 - k,
    {
        r.push(transform[(k % 4) * 4 + k / 4]);
        k += 1;
    }
    proof {
        assert(r@ =~= spec_pack_transform(transform@));
    }
    r
}

} // verus!
