//! Descriptor layout, pool and binding plans.
//!
//! One uniform-buffer binding, visible to the vertex stage; a fixed-capacity
//! pool; and one descriptor set per presentable image, each set's single
//! binding pointed at that image's uniform buffer at offset zero with a range
//! of exactly one uniform struct.

use vstd::prelude::*;

use crate::buffers::UNIFORM_BUFFER_SIZE_BYTES;

verus! {

/// Fixed descriptor pool capacity, in sets and in uniform descriptors.  The
/// pool is sized generously and never grown; exhaustion is a fatal
/// allocation error, not expected since the set count equals the
/// swapchain image count.
pub const DESCRIPTOR_POOL_CAPACITY: u32 = 100;

/// The single layout binding: a uniform buffer for the vertex stage.
#[derive(Clone, Copy, Debug, PartialEq, Eq, Structural)]
pub struct DescriptorLayoutBinding {
    /// Binding slot number.
    pub binding: u32,
    /// Descriptors in the binding.
    pub descriptor_count: u32,
    /// The binding is visible to the vertex stage.
    pub vertex_stage_visible: bool,
}

/// Plans the descriptor set layout: one uniform-buffer descriptor at binding
/// zero, visible to the vertex stage.
pub fn create_descriptor_set_layout() -> (r: DescriptorLayoutBinding)
    ensures
        r == (DescriptorLayoutBinding {
            binding: 0u32,
            descriptor_count: 1u32,
            vertex_stage_visible: true,
        }),
{
    DescriptorLayoutBinding { binding: 0, descriptor_count: 1, vertex_stage_visible: true }
}

/// The pool can serve one set per image.
pub fn pool_can_allocate(image_count: usize) -> (r: bool)
    ensures
        r == (image_count <= DESCRIPTOR_POOL_CAPACITY),
{
    image_count <= DESCRIPTOR_POOL_CAPACITY as usize
}

/// One descriptor write: which set, which buffer, and the bound range.
#[derive(Clone, Copy, Debug, PartialEq, Eq, Structural)]
pub struct DescriptorWrite {
    /// Index of the set being written.
    pub set_index: usize,
    /// Index of the uniform buffer the binding points at.
    pub buffer_index: usize,
    /// Binding slot number.
    pub binding: u32,
    /// First array element of the write.
    pub array_element: u32,
    /// Byte offset into the buffer.
    pub offset: u64,
    /// Bytes bound, exactly one uniform struct.
    pub range: u64,
}

/// The write planned for set `i`: its own image's uniform buffer, binding
/// zero, offset zero, one uniform struct long.
pub open spec fn spec_descriptor_write(i: int) -> DescriptorWrite {
    DescriptorWrite {
        set_index: i as usize,
        buffer_index: i as usize,
        binding: 0u32,
        array_element: 0u32,
        offset: 0u64,
        range: UNIFORM_BUFFER_SIZE_BYTES,
    }
}

/// Plans the per-image descriptor sets: one set per image, each set's single
/// binding pointed at that image's uniform buffer with offset zero and range
/// equal to the uniform struct size.
pub fn create_descriptor_sets(image_count: usize) -> (r: Vec<DescriptorWrite>)
    ensures
        r@.len() == image_count,
        forall|i: int| 0 <= i < image_count ==> r@[i] == spec_descriptor_write(i),
{
    let mut writes: Vec<DescriptorWrite> = Vec::new();
    let mut i: usize = 0;
    while i < image_count
        invariant
            i <= image_count,
            writes@.len() == i,
            forall|j: int| 0 <= j < i ==> writes@[j] == spec_descriptor_write(j),
        decreases image_count - i,
    {
        writes.push(
            DescriptorWrite {
                set_index: i,
                buffer_index: i,
                binding: 0,
                array_element: 0,
                offset: 0,
                range: UNIFORM_BUFFER_SIZE_BYTES,
            },
        );
        i += 1;
    }
    writes
}

/// No two sets share a uniform buffer, so in-flight frames never alias the
/// same memory: each set is bound to the buffer of its own image index.
pub proof fn lemma_sets_bind_distinct_buffers(a: usize, b: usize)
    requires
        a != b,
    ensures
        spec_descriptor_write(a as int).buffer_index != spec_descriptor_write(b as int).buffer_index,
{
}

} // verus!
