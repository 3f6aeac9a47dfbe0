use vstd::prelude::*;

use crate::memory::{MEMORY_DEVICE_LOCAL, MEMORY_HOST_COHERENT, MEMORY_HOST_VISIBLE};

verus! {

/// Buffer usage flag: source of a transfer.
pub const USAGE_TRANSFER_SRC: u32 = 0x1;
/// Buffer usage flag: destination of a transfer.
pub const USAGE_TRANSFER_DST: u32 = 0x2;
/// Buffer usage flag: uniform buffer.
pub const USAGE_UNIFORM_BUFFER: u32 = 0x10;
/// Buffer usage flag: index buffer.
pub const USAGE_INDEX_BUFFER: u32 = 0x40;
/// Buffer usage flag: vertex buffer.
pub const USAGE_VERTEX_BUFFER: u32 = 0x80;
/// Byte size of the uniform block: a view and a projection matrix, each 4x4 of 32-bit floats.
pub const UNIFORM_BLOCK_SIZE: u64 = 128;

/// What a buffer is created with: its byte size, usage flags and the memory
/// properties its backing memory must have.
#[derive(Clone, Copy, Debug, PartialEq, Eq, Structural)]
pub struct BufferRequest {
    pub size: u64,
    pub usage: u32,
    pub properties: u32,
}

/// A byte range copied from one buffer to another.
#[derive(Clone, Copy, Debug, PartialEq, Eq, Structural)]
pub struct CopyRegion {
    pub src_offset: u64,
    pub dst_offset: u64,
    pub size: u64,
}

/// A host-to-device upload through a host-visible staging buffer: the caller's
/// bytes are written to `staging`, then `copy` moves them into `destination`,
/// after which the staging buffer and its memory are released.
#[derive(Clone, Copy, Debug, PartialEq, Eq, Structural)]
pub struct StagedUpload {
    pub staging: BufferRequest,
    pub destination: BufferRequest,
    pub copy: CopyRegion,
}

/// The contents of `dst` after copying `region` of `src` into it.
pub open spec fn apply_copy(region: CopyRegion, src: Seq<u8>, dst: Seq<u8>) -> Seq<u8> {
    Seq::new(dst.len(), |i: int|
        if region.dst_offset <= i < region.dst_offset + region.size {
            src[i - region.dst_offset + region.src_offset]
        } else {
            dst[i]
        })
}

/// A copy region that lies inside both buffers.
pub open spec fn region_fits(region: CopyRegion, src_len: nat, dst_len: nat) -> bool {
    region.src_offset + region.size <= src_len && region.dst_offset + region.size <= dst_len
}

/// The host-visible buffer that the engine writes a frame's uniform block to.
pub fn uniform_buffer_request() -> (r: BufferRequest)
    ensures
        r == (BufferRequest {
            size: UNIFORM_BLOCK_SIZE,
            usage: USAGE_UNIFORM_BUFFER,
            properties: MEMORY_HOST_COHERENT | MEMORY_HOST_VISIBLE,
        }),
{
    BufferRequest { size: UNIFORM_BLOCK_SIZE, usage: USAGE_UNIFORM_BUFFER, properties: MEMORY_HOST_COHERENT | MEMORY_HOST_VISIBLE }
}

/// The upload of `size` bytes into a device-local buffer that will be used as
/// `usage` (vertex, index or texture data): a host-visible, coherent staging
/// buffer of the same size, a device-local destination that can also receive
/// transfers, and one copy of all bytes from the start of one to the start of
/// the other.
pub open spec fn staged_upload(size: u64, usage: u32) -> StagedUpload {
    StagedUpload {
        staging: BufferRequest { size, usage: USAGE_TRANSFER_SRC, properties: MEMORY_HOST_COHERENT | MEMORY_HOST_VISIBLE },
        destination: BufferRequest { size, usage: USAGE_TRANSFER_DST | usage, properties: MEMORY_DEVICE_LOCAL },
        copy: CopyRegion { src_offset: 0, dst_offset: 0, size },
    }
}

/// Plans the upload of `size` bytes for use as `usage` (see `staged_upload`).
pub fn plan_staged_upload(size: u64, usage: u32) -> (r: StagedUpload)
    ensures
        r == staged_upload(size, usage),
{
    StagedUpload {
        staging: BufferRequest { size, usage: USAGE_TRANSFER_SRC, properties: MEMORY_HOST_COHERENT | MEMORY_HOST_VISIBLE },
        destination: BufferRequest { size, usage: USAGE_TRANSFER_DST | usage, properties: MEMORY_DEVICE_LOCAL },
        copy: CopyRegion { src_offset: 0, dst_offset: 0, size },
    }
}

/// Staging round trip: when bytes `data` are written to the staging buffer of
/// the upload planned for their length, the planned copy fits both buffers
/// and leaves the destination buffer, whatever it held before, holding
/// exactly `data`.
pub proof fn lemma_staged_upload_round_trip(data: Seq<u8>, usage: u32, before: Seq<u8>)
    requires
        data.len() <= u64::MAX,
        before.len() == data.len(),
    ensures
        ({
            let plan = staged_upload(data.len() as u64, usage);
            &&& plan.staging.size == data.len() && plan.destination.size == data.len()
            &&& region_fits(plan.copy, plan.staging.size as nat, plan.destination.size as nat)
            &&& apply_copy(plan.copy, data, before) == data
        }),
{
    let plan = staged_upload(data.len() as u64, usage);
    assert(apply_copy(plan.copy, data, before) =~= data);
}

} // verus!
