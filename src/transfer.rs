//! Moving immutable data from host memory into device-local buffers through
//! a staging buffer, and choosing memory types for buffers.
//!
//! An upload runs as: create the staging buffer, map it, fill it, unmap it,
//! create the destination buffer, record and submit one copy of the whole
//! size, wait until the queue is idle, free the staging buffer.

use vstd::prelude::*;

verus! {

/// `VK_BUFFER_USAGE_TRANSFER_SRC_BIT`.
pub const BUFFER_USAGE_TRANSFER_SRC: u32 = 0x1;

/// `VK_BUFFER_USAGE_TRANSFER_DST_BIT`.
pub const BUFFER_USAGE_TRANSFER_DST: u32 = 0x2;

/// `VK_BUFFER_USAGE_UNIFORM_BUFFER_BIT`.
pub const BUFFER_USAGE_UNIFORM_BUFFER: u32 = 0x10;

/// `VK_BUFFER_USAGE_INDEX_BUFFER_BIT`.
pub const BUFFER_USAGE_INDEX_BUFFER: u32 = 0x40;

/// `VK_BUFFER_USAGE_VERTEX_BUFFER_BIT`.
pub const BUFFER_USAGE_VERTEX_BUFFER: u32 = 0x80;

/// `VK_MEMORY_PROPERTY_DEVICE_LOCAL_BIT`.
pub const MEMORY_PROPERTY_DEVICE_LOCAL: u32 = 0x1;

/// `VK_MEMORY_PROPERTY_HOST_VISIBLE_BIT`.
pub const MEMORY_PROPERTY_HOST_VISIBLE: u32 = 0x2;

/// `VK_MEMORY_PROPERTY_HOST_COHERENT_BIT`.
pub const MEMORY_PROPERTY_HOST_COHERENT: u32 = 0x4;

/// `VK_MAX_MEMORY_TYPES`: a device reports at most this many memory types.
pub const MAX_MEMORY_TYPES: usize = 32;

/// Memory type `i` is allowed by the bitmask `type_filter`.
pub open spec fn type_allowed(type_filter: u32, i: int) -> bool {
    type_filter & (1u32 << (i as u32)) != 0
}

/// Memory type `i` is allowed and has every property in `required`.
pub open spec fn qualifies(type_filter: u32, required: u32, type_flags: Seq<u32>, i: int) -> bool {
    &&& 0 <= i < type_flags.len()
    &&& type_allowed(type_filter, i)
    &&& type_flags[i] & required == required
}

/// Picks the first memory type, by index, that `type_filter` allows and whose
/// property flags (`type_flags[i]` for type `i`) include all of `required`.
/// None when no type qualifies.
pub fn find_memory_type(type_filter: u32, required: u32, type_flags: &Vec<u32>) -> (r: Option<u32>)
    requires
        type_flags@.len() <= MAX_MEMORY_TYPES,
    ensures
        r matches Some(i) ==> qualifies(type_filter, required, type_flags@, i as int)
            && forall|j: int| 0 <= j < i ==> !qualifies(type_filter, required, type_flags@, j),
        r is None <==> forall|j: int| 0 <= j < type_flags@.len() ==> !qualifies(type_filter, required, type_flags@, j),
{
    let mut i: usize = 0;
    while i < type_flags.len()
        invariant
            i <= type_flags@.len(),
            type_flags@.len() <= MAX_MEMORY_TYPES,
            forall|j: int| 0 <= j < i ==> !qualifies(type_filter, required, type_flags@, j),
        decreases type_flags@.len() - i,
    {
        let bit: u32 = 1u32 << (i as u32);
        if type_filter & bit != 0 && type_flags[i] & required == required {
            assert(qualifies(type_filter, required, type_flags@, i as int));
            return Some(i as u32);
        }
        i = i + 1;
    }
    None
}

/// How to create one buffer.
#[derive(Clone, Copy, Debug, PartialEq, Eq, Structural)]
pub struct BufferSpec {
    pub size: u64,
    pub usage: u32,
    pub properties: u32,
}

/// One buffer-to-buffer copy region.
#[derive(Clone, Copy, Debug, PartialEq, Eq, Structural)]
pub struct BufferCopy {
    pub src_offset: u64,
    pub dst_offset: u64,
    pub size: u64,
}

/// The buffers and the copy of one upload.
#[derive(Clone, Copy, Debug, PartialEq, Eq, Structural)]
pub struct UploadPlan {
    pub staging: BufferSpec,
    pub destination: BufferSpec,
    pub copy: BufferCopy,
}

pub open spec fn host_visible_coherent() -> u32 {
    MEMORY_PROPERTY_HOST_VISIBLE | MEMORY_PROPERTY_HOST_COHERENT
}

/// The upload of `size` bytes into a device-local buffer with `usage`: a
/// host-visible, host-coherent staging buffer of the same size, a destination
/// that can also receive transfers, and one copy of the whole size.
pub open spec fn upload_plan(size: u64, usage: u32) -> UploadPlan {
    UploadPlan {
        staging: BufferSpec {
            size,
            usage: BUFFER_USAGE_TRANSFER_SRC,
            properties: host_visible_coherent(),
        },
        destination: BufferSpec {
            size,
            usage: usage | BUFFER_USAGE_TRANSFER_DST,
            properties: MEMORY_PROPERTY_DEVICE_LOCAL,
        },
        copy: BufferCopy { src_offset: 0, dst_offset: 0, size },
    }
}

/// Plans the upload of `byte_len` bytes into a device-local buffer that will
/// be used as `usage`.
pub fn plan_upload(byte_len: usize, usage: u32) -> (r: UploadPlan)
    ensures
        r == upload_plan(byte_len as u64, usage),
{
    let size = byte_len as u64;
    UploadPlan {
        staging: BufferSpec {
            size,
            usage: BUFFER_USAGE_TRANSFER_SRC,
            properties: MEMORY_PROPERTY_HOST_VISIBLE | MEMORY_PROPERTY_HOST_COHERENT,
        },
        destination: BufferSpec {
            size,
            usage: usage | BUFFER_USAGE_TRANSFER_DST,
            properties: MEMORY_PROPERTY_DEVICE_LOCAL,
        },
        copy: BufferCopy { src_offset: 0, dst_offset: 0, size },
    }
}

/// A per-frame uniform buffer of `size` bytes: host-visible and host-coherent,
/// so it can be rewritten every frame without a transfer.
pub fn uniform_buffer_spec(size: u64) -> (r: BufferSpec)
    ensures
        r == (BufferSpec {
            size,
            usage: BUFFER_USAGE_UNIFORM_BUFFER,
            properties: host_visible_coherent(),
        }),
{
    BufferSpec {
        size,
        usage: BUFFER_USAGE_UNIFORM_BUFFER,
        properties: MEMORY_PROPERTY_HOST_VISIBLE | MEMORY_PROPERTY_HOST_COHERENT,
    }
}

/// Copies `bytes` into the mapped staging memory, which has their length.
pub fn fill_staging(mapped: &mut [u8], bytes: &[u8])
    requires
        old(mapped)@.len() == bytes@.len(),
    ensures
        final(mapped)@ == bytes@,
{
    let mut i: usize = 0;
    while i < bytes.len()
        invariant
            i <= bytes@.len(),
            mapped@.len() == bytes@.len(),
            forall|j: int| 0 <= j < i ==> mapped@[j] == bytes@[j],
        decreases bytes@.len() - i,
    {
        mapped[i] = bytes[i];
        i = i + 1;
    }
    assert(mapped@ =~= bytes@);
}

/// How a device-local buffer of `size` bytes is read back: a host-visible,
/// host-coherent buffer that receives transfers, and one copy of the whole size.
pub open spec fn readback_plan(size: u64) -> (BufferSpec, BufferCopy) {
    (
        BufferSpec { size, usage: BUFFER_USAGE_TRANSFER_DST, properties: host_visible_coherent() },
        BufferCopy { src_offset: 0, dst_offset: 0, size },
    )
}

/// Plans reading back a device-local buffer of `size` bytes, to check an
/// upload. The uploaded buffer must also have been created with
/// [`BUFFER_USAGE_TRANSFER_SRC`].
pub fn plan_readback(size: u64) -> (r: (BufferSpec, BufferCopy))
    ensures
        r == readback_plan(size),
{
    (
        BufferSpec {
            size,
            usage: BUFFER_USAGE_TRANSFER_DST,
            properties: MEMORY_PROPERTY_HOST_VISIBLE | MEMORY_PROPERTY_HOST_COHERENT,
        },
        BufferCopy { src_offset: 0, dst_offset: 0, size },
    )
}

/// The content of a buffer holding `dst` after `region` was copied into it
/// from a buffer holding `src`.
pub open spec fn after_copy(region: BufferCopy, src: Seq<u8>, dst: Seq<u8>) -> Seq<u8> {
    Seq::new(
        dst.len(),
        |k: int|
            if region.dst_offset <= k < region.dst_offset + region.size {
                src[k - region.dst_offset + region.src_offset]
            } else {
                dst[k]
            },
    )
}

/// Uploading bytes and reading the device-local buffer back gives the bytes
/// unchanged: the staging buffer holds exactly the bytes, the planned upload
/// copy moves every one of them into the device-local buffer, and the planned
/// readback copy moves every one of them out again.
pub proof fn lemma_upload_round_trip(
    bytes: Seq<u8>,
    usage: u32,
    device: Seq<u8>,
    readback: Seq<u8>,
)
    requires
        bytes.len() <= u64::MAX,
        device.len() == bytes.len(),
        readback.len() == bytes.len(),
    ensures
        after_copy(upload_plan(bytes.len() as u64, usage).copy, bytes, device) == bytes,
        after_copy(
            readback_plan(bytes.len() as u64).1,
            after_copy(upload_plan(bytes.len() as u64, usage).copy, bytes, device),
            readback,
        ) == bytes,
{
    let region = upload_plan(bytes.len() as u64, usage).copy;
    assert(after_copy(region, bytes, device) =~= bytes);
    assert(after_copy(readback_plan(bytes.len() as u64).1, bytes, readback) =~= bytes);
}

/// Whether a buffer read back from the device holds exactly the source bytes.
pub fn bytes_match(source: &[u8], readback: &[u8]) -> (r: bool)
    ensures
        r == (source@ == readback@),
{
    if source.len() != readback.len() {
        return false;
    }
    let mut i: usize = 0;
    while i < source.len()
        invariant
            i <= source@.len(),
            source@.len() == readback@.len(),
            forall|j: int| 0 <= j < i ==> source@[j] == readback@[j],
        decreases source@.len() - i,
    {
        if source[i] != readback[i] {
            return false;
        }
        i = i + 1;
    }
    assert(source@ =~= readback@);
    true
}

} // verus!
