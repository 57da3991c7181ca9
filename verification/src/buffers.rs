//! Memory-type selection and buffer planning.
//!
//! The allocator policy is deliberately simple: scan the device's memory-type
//! list in index order and take the first type whose bit is set in the type
//! filter and whose property flags are a superset of the required ones; no
//! fallback search.  Buffer requests are planned here as plain values (size,
//! usage, properties) and carried to the GPU by the caller.

use vstd::prelude::*;

use crate::error::SetupError;

verus! {

/// Memory property flag: device-local memory.
pub const MEMORY_PROPERTY_DEVICE_LOCAL: u32 = 0x1;
/// Memory property flag: host-visible memory.
pub const MEMORY_PROPERTY_HOST_VISIBLE: u32 = 0x2;
/// Memory property flag: host-coherent memory.
pub const MEMORY_PROPERTY_HOST_COHERENT: u32 = 0x4;

/// Buffer usage flag: uniform buffer.
pub const BUFFER_USAGE_UNIFORM: u32 = 0x10;
/// Buffer usage flag: index buffer.
pub const BUFFER_USAGE_INDEX: u32 = 0x40;
/// Buffer usage flag: vertex buffer.
pub const BUFFER_USAGE_VERTEX: u32 = 0x80;

/// Bytes per vertex: position (3 floats) + color (3 floats).
pub const VERTEX_STRIDE_BYTES: u64 = 24;
/// Bytes per index entry (16-bit indices).
pub const INDEX_STRIDE_BYTES: u64 = 2;
/// Bytes per uniform slot: three 4x4 float matrices (model, view, projection).
pub const UNIFORM_BUFFER_SIZE_BYTES: u64 = 192;

/// Memory type `i` qualifies when its bit is set in the type filter and its
/// property flags contain every required flag.
pub open spec fn memory_type_qualifies(type_filter: u32, flags: u32, required: u32, i: u32) -> bool {
    &&& (type_filter & (1u32 << i)) != 0
    &&& (flags & required) == required
}

/// Picks the lowest-indexed memory type whose bit is set in `type_filter` and
/// whose property flags are a superset of `required`.  Fails, rather than
/// silently defaulting, when no type qualifies: that is a platform the
/// renderer does not support.
///
/// `memory_types` holds each type's property flags, in device index order.
pub fn find_memory_type(type_filter: u32, memory_types: &Vec<u32>, required: u32) -> (r: Result<
    u32,
    SetupError,
>)
    requires
        memory_types@.len() <= 32,
    ensures
        match r {
            Ok(i) => {
                &&& 0 <= i < memory_types@.len()
                &&& memory_type_qualifies(type_filter, memory_types@[i as int], required, i)
                &&& forall|j: int|
                    0 <= j < i ==> !memory_type_qualifies(
                        type_filter,
                        memory_types@[j],
                        required,
                        j as u32,
                    )
            },
            Err(e) => {
                &&& e == SetupError::NoMatchingMemoryType
                &&& forall|j: int|
                    0 <= j < memory_types@.len() ==> !memory_type_qualifies(
                        type_filter,
                        memory_types@[j],
                        required,
                        j as u32,
                    )
            },
        },
{
    let n = memory_types.len();
    let mut i: usize = 0;
    while i < n
        invariant
            n == memory_types@.len(),
            n <= 32,
            i <= n,
            forall|j: int|
                0 <= j < i ==> !memory_type_qualifies(
                    type_filter,
                    memory_types@[j],
                    required,
                    j as u32,
                ),
        decreases n - i,
    {
        let bit = 1u32 << (i as u32);
        if (type_filter & bit) != 0 && (memory_types[i] & required) == required {
            return Ok(i as u32);
        }
        i += 1;
    }
    Err(SetupError::NoMatchingMemoryType)
}

/// One planned GPU allocation: how large, what for, and on what memory.
#[derive(Clone, Copy, Debug, PartialEq, Eq, Structural)]
pub struct BufferRequest {
    /// Allocation size in bytes.
    pub size: u64,
    /// Buffer usage flags.
    pub usage: u32,
    /// Required memory property flags.
    pub properties: u32,
}

/// Plans the host-visible vertex buffer for `vertex_count` vertices,
/// written once at startup.
pub fn vertex_buffer_request(vertex_count: u64) -> (r: BufferRequest)
    requires
        vertex_count * VERTEX_STRIDE_BYTES <= u64::MAX,
    ensures
        r.size == vertex_count * VERTEX_STRIDE_BYTES,
        r.usage == BUFFER_USAGE_VERTEX,
        r.properties == MEMORY_PROPERTY_HOST_VISIBLE | MEMORY_PROPERTY_HOST_COHERENT,
{
    BufferRequest {
        size: vertex_count * VERTEX_STRIDE_BYTES,
        usage: BUFFER_USAGE_VERTEX,
        properties: MEMORY_PROPERTY_HOST_VISIBLE | MEMORY_PROPERTY_HOST_COHERENT,
    }
}

/// Plans the host-visible index buffer for `index_count` 16-bit indices,
/// written once at startup.
pub fn index_buffer_request(index_count: u64) -> (r: BufferRequest)
    requires
        index_count * INDEX_STRIDE_BYTES <= u64::MAX,
    ensures
        r.size == index_count * INDEX_STRIDE_BYTES,
        r.usage == BUFFER_USAGE_INDEX,
        r.properties == MEMORY_PROPERTY_HOST_VISIBLE | MEMORY_PROPERTY_HOST_COHERENT,
{
    BufferRequest {
        size: index_count * INDEX_STRIDE_BYTES,
        usage: BUFFER_USAGE_INDEX,
        properties: MEMORY_PROPERTY_HOST_VISIBLE | MEMORY_PROPERTY_HOST_COHERENT,
    }
}

/// The uniform-slot request: one per swapchain image, written every frame.
pub open spec fn spec_uniform_buffer_request() -> BufferRequest {
    BufferRequest {
        size: UNIFORM_BUFFER_SIZE_BYTES,
        usage: BUFFER_USAGE_UNIFORM,
        properties: MEMORY_PROPERTY_HOST_VISIBLE | MEMORY_PROPERTY_HOST_COHERENT,
    }
}

/// Plans one uniform buffer per swapchain image, so in-flight frames never
/// alias the same memory.  Every slot is host-visible and exactly one
/// uniform struct large.
pub fn create_uniform_buffers(image_count: usize) -> (r: Vec<BufferRequest>)
    ensures
        r@.len() == image_count,
        forall|i: int| 0 <= i < image_count ==> r@[i] == spec_uniform_buffer_request(),
{
    let mut requests: Vec<BufferRequest> = Vec::new();
    let mut i: usize = 0;
    while i < image_count
        invariant
            i <= image_count,
            requests@.len() == i,
            forall|j: int| 0 <= j < i ==> requests@[j] == spec_uniform_buffer_request(),
        decreases image_count - i,
    {
        requests.push(
            BufferRequest {
                size: UNIFORM_BUFFER_SIZE_BYTES,
                usage: BUFFER_USAGE_UNIFORM,
                properties: MEMORY_PROPERTY_HOST_VISIBLE | MEMORY_PROPERTY_HOST_COHERENT,
            },
        );
        i += 1;
    }
    requests
}

} // verus!
