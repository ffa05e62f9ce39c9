//! Descriptor pools, layouts and sets.
//!
//! A descriptor set is a bound collection of shader-visible resource
//! references.  The model records what each binding was last updated
//! with, so contracts can say which resources a draw sees.

use crate::image::{ImageLayout, ImageSampler, ImageView};
use crate::shader::ShaderStages;
use crate::subbuffer::SubBuffer;
use vstd::prelude::*;

verus! {

/// The type of a descriptor.
#[derive(Debug, Clone, Copy, PartialEq, Eq, Structural)]
pub enum DescriptorType {
    /// A combined image sampler, used to sample textures in shaders.
    Sampler,
    /// A uniform buffer, used to pass uniform variables to shaders.
    Uniform,
}

/// Configuration used to create a descriptor pool: how many descriptors
/// of one type it can allocate.
#[derive(Debug, Clone, Copy, PartialEq, Eq, Structural)]
pub struct DescriptorPoolCreateInfo {
    /// The type of descriptor to allocate.
    pub descriptor_type: DescriptorType,
    /// The number of descriptors of that type the pool can hand out.
    pub descriptor_count: u32,
}

impl Default for DescriptorPoolCreateInfo {
    fn default() -> (r: Self)
        ensures
            r.descriptor_type is Uniform,
            r.descriptor_count == 1,
    {
        Self { descriptor_type: DescriptorType::Uniform, descriptor_count: 1 }
    }
}

/// A descriptor pool: the sizes it was created with.
pub struct DescriptorPool {
    /// The pool sizes, one per descriptor type the pool serves.
    pub sizes: Vec<DescriptorPoolCreateInfo>,
    /// The maximum number of sets the pool can allocate.
    pub max_sets: u32,
}

impl DescriptorPool {
    /// Create a new descriptor pool with the given sizes. The pool can
    /// allocate one set.
    pub fn new(infos: &[DescriptorPoolCreateInfo]) -> (r: Self)
        ensures
            r.sizes@ == infos@,
            r.max_sets == 1,
    {
        Self { sizes: copy_infos(infos), max_sets: 1 }
    }
}

/// Copy a slice of pool sizes into a fresh vector.
fn copy_infos(infos: &[DescriptorPoolCreateInfo]) -> (r: Vec<DescriptorPoolCreateInfo>)
    ensures
        r@ == infos@,
{
    let mut fresh: Vec<DescriptorPoolCreateInfo> = Vec::new();
    let mut i: usize = 0;
    let n = infos.len();
    while i < n
        invariant
            i <= n,
            n == infos@.len(),
            fresh@.len() == i,
            forall|j: int| 0 <= j < i ==> fresh@[j] == infos@[j],
        decreases n - i,
    {
        fresh.push(infos[i]);
        i = i + 1;
    }
    proof {
        assert(fresh@ =~= infos@);
    }
    fresh
}

/// One binding of a descriptor set layout: which kind of resource sits at
/// the binding and in which shader stages it is visible.
#[derive(Debug, Clone, Copy, PartialEq, Eq, Structural)]
pub struct DescriptorSetLayoutBinding {
    /// The type of the descriptor.
    pub descriptor_type: DescriptorType,
    /// The shader stages the descriptor is used in.
    pub shader_stages: ShaderStages,
    /// The binding number of this descriptor.
    pub binding: u32,
}

impl Default for DescriptorSetLayoutBinding {
    fn default() -> (r: Self)
        ensures
            r.descriptor_type is Uniform,
            r.shader_stages is All,
            r.binding == 0,
    {
        Self {
            descriptor_type: DescriptorType::Uniform,
            shader_stages: ShaderStages::All,
            binding: 0,
        }
    }
}

/// A descriptor set layout: the uniform variable layout used in a shader.
pub struct DescriptorSetLayout {
    /// The bindings of the layout.
    pub bindings: Vec<DescriptorSetLayoutBinding>,
}

impl DescriptorSetLayout {
    /// Create a new descriptor set layout with the given bindings.
    pub fn new(layouts: &[DescriptorSetLayoutBinding]) -> (r: Self)
        ensures
            r.bindings@ == layouts@,
    {
        let mut fresh: Vec<DescriptorSetLayoutBinding> = Vec::new();
        let mut i: usize = 0;
        let n = layouts.len();
        while i < n
            invariant
                i <= n,
                n == layouts@.len(),
                fresh@.len() == i,
                forall|j: int| 0 <= j < i ==> fresh@[j] == layouts@[j],
            decreases n - i,
        {
            fresh.push(layouts[i]);
            i = i + 1;
        }
        proof {
            assert(fresh@ =~= layouts@);
        }
        Self { bindings: fresh }
    }
}

/// What one descriptor binding was updated with.
#[derive(Debug, Clone, Copy, PartialEq, Eq, Structural)]
pub enum DescriptorWrite {
    /// A uniform buffer of `count` elements bound at `binding`.
    Buffer { binding: u32, count: usize },
    /// A sampled image in the given layout bound at `binding`.
    Image { binding: u32, layout: ImageLayout },
}

/// A sampled image reference handed to a descriptor update.
pub struct ImageDescriptorInfo<'a> {
    pub sampler: &'a ImageSampler,
    pub layout: ImageLayout,
    pub view: &'a ImageView,
}

/// A descriptor set: the resource references written into it, latest
/// last.
pub struct DescriptorSet {
    /// Every update written into the set, in order.
    pub writes: Vec<DescriptorWrite>,
}

impl DescriptorSet {
    /// Allocate a new descriptor set from a pool, with nothing written
    /// yet.
    pub fn new(_pool: &DescriptorPool) -> (r: Self)
        ensures
            r.writes@.len() == 0,
    {
        Self { writes: Vec::new() }
    }

    /// Update the set with the given uniform buffer at the given binding.
    pub fn update_buffer<T>(&mut self, binding: u32, buffer: &SubBuffer<T>)
        ensures
            final(self).writes@ == old(self).writes@.push(
                DescriptorWrite::Buffer { binding, count: buffer.count },
            ),
    {
        self.writes.push(DescriptorWrite::Buffer { binding, count: buffer.count() });
    }

    /// Update the set with the given image view and sampler at the given
    /// binding.
    pub fn update_image(&mut self, binding: u32, info: ImageDescriptorInfo<'_>)
        ensures
            final(self).writes@ == old(self).writes@.push(
                DescriptorWrite::Image { binding, layout: info.layout },
            ),
    {
        self.writes.push(DescriptorWrite::Image { binding, layout: info.layout });
    }
}

} // verus!
