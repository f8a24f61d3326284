//! Buffers of the graphics device: what they are used for, and how a part of
//! one is addressed.

pub mod bytes_address;

use vstd::prelude::*;
use crate::render::buffer::bytes_address::BytesAddress;

verus! {

/// The size of a buffer on the device is a multiple of this many bytes.
pub const PHYSICAL_SIZE_ALIGNMENT: u64 = 4;

pub enum BufferUsage {
    /// MAP_WRITE | COPY_SRC
    StagingWrite,
    /// MAP_READ | COPY_DST
    StagingRead,
    /// COPY_DST | INDEX | VERTEX | UNIFORM
    Dynamic,
    /// MAP_WRITE | INDEX | VERTEX | UNIFORM
    DynamicMappable,
    /// VERTEX
    Vertex,
    /// INDEX
    Index,
}

/// The uses of a buffer as the device names them, one bit each.
pub const MAP_READ: u32 = 1;

pub const MAP_WRITE: u32 = 2;

pub const COPY_SRC: u32 = 4;

pub const COPY_DST: u32 = 8;

pub const INDEX: u32 = 16;

pub const VERTEX: u32 = 32;

pub const UNIFORM: u32 = 64;

impl BufferUsage {
    /// The uses that the device is asked for, as the sum of their bits.
    pub open spec fn spec_bits(&self) -> u32 {
        match self {
            BufferUsage::StagingWrite => 6,
            BufferUsage::StagingRead => 9,
            BufferUsage::Dynamic => 120,
            BufferUsage::DynamicMappable => 114,
            BufferUsage::Vertex => 32,
            BufferUsage::Index => 16,
        }
    }

    #[verifier::when_used_as_spec(spec_bits)]
    pub fn bits(&self) -> (bits: u32)
        ensures
            bits == self.spec_bits(),
    {
        match self {
            BufferUsage::StagingWrite => MAP_WRITE + COPY_SRC,
            BufferUsage::StagingRead => MAP_READ + COPY_DST,
            BufferUsage::Dynamic => COPY_DST + INDEX + VERTEX + UNIFORM,
            BufferUsage::DynamicMappable => MAP_WRITE + INDEX + VERTEX + UNIFORM,
            BufferUsage::Vertex => VERTEX,
            BufferUsage::Index => INDEX,
        }
    }
}

/// Information necessary to make a right call to `draw` or `draw_indexed`
/// after binding the vertex source.
#[derive(Debug, Clone, Copy, PartialEq, Eq, Structural)]
pub enum VertexSourceInfo {
    VertexBuffer { vertex_count: u32 },
    VertexAndIndexBuffer { index_count: u32 },
}

/// A part of a buffer: where it starts in the buffer, and how many bytes it
/// has.
#[derive(Debug, Clone, Copy, PartialEq, Eq, Structural)]
pub struct BufferRange {
    pub offset: BytesAddress,
    pub size: BytesAddress,
}

impl BufferRange {
    /// Whether the part ends where a `u64` can still count.
    pub open spec fn well_formed(self) -> bool {
        self.offset.0 + self.size.0 <= u64::MAX
    }

    /// The size of the buffer on the device that holds `size_bytes` bytes:
    /// `size_bytes` rounded up to the alignment of the device.
    pub fn physical_size(size_bytes: BytesAddress) -> (physical: BytesAddress)
        requires
            size_bytes.0 % PHYSICAL_SIZE_ALIGNMENT == 0 || size_bytes.0 + PHYSICAL_SIZE_ALIGNMENT
                <= u64::MAX,
        ensures
            physical.0 % PHYSICAL_SIZE_ALIGNMENT == 0,
            size_bytes.0 <= physical.0 < size_bytes.0 + PHYSICAL_SIZE_ALIGNMENT,
    {
        size_bytes.align_to(BytesAddress::new(PHYSICAL_SIZE_ALIGNMENT))
    }

    /// How many bytes are written to the device for `length` bytes of data:
    /// nothing is written for no data, and otherwise the length is rounded up
    /// to the alignment of the device.
    pub fn padded_write_size(length: usize) -> (size: Option<u64>)
        requires
            length + PHYSICAL_SIZE_ALIGNMENT <= u64::MAX,
        ensures
            size is None <==> length == 0,
            size matches Some(size) ==> size % PHYSICAL_SIZE_ALIGNMENT == 0 && length <= size
                < length + PHYSICAL_SIZE_ALIGNMENT,
    {
        if length == 0 {
            // empty writes are no-op
            return None;
        }
        Some(
            BytesAddress::from_usize(length).align_to(
                BytesAddress::new(PHYSICAL_SIZE_ALIGNMENT),
            ).get(),
        )
    }

    /// The whole of a buffer of `size` bytes.
    pub fn whole(size: BytesAddress) -> (range: BufferRange)
        ensures
            range.offset.0 == 0,
            range.size == size,
            range.well_formed(),
    {
        BufferRange { offset: BytesAddress::new(0), size }
    }

    /// The part of this part that starts `start` bytes into it and has `size`
    /// bytes. It has to start inside this part and to end inside it.
    pub fn slice_bytes(self, start: BytesAddress, size: BytesAddress) -> (range: BufferRange)
        requires
            self.well_formed(),
            start.0 < self.size.0,
            start.0 + size.0 <= self.size.0,
        ensures
            range.offset.0 == self.offset.0 + start.0,
            range.size == size,
            range.well_formed(),
            self.offset.0 <= range.offset.0,
            range.offset.0 + range.size.0 <= self.offset.0 + self.size.0,
    {
        BufferRange { offset: self.offset + start, size }
    }

    /// The part that holds `count` elements of `element_size` bytes each,
    /// from the `first`-th element of this part on.
    pub fn slice_elements(self, first: usize, count: usize, element_size: usize) -> (range:
        BufferRange)
        requires
            self.well_formed(),
            first * element_size < self.size.0,
            first * element_size + count * element_size <= self.size.0,
        ensures
            range.offset.0 == self.offset.0 + first * element_size,
            range.size.0 == count * element_size,
            range.well_formed(),
    {
        assert(first * element_size <= u64::MAX && count * element_size <= u64::MAX)
            by (nonlinear_arith)
            requires
                first * element_size + count * element_size <= self.size.0,
                self.size.0 <= u64::MAX,
                first >= 0,
                count >= 0,
                element_size >= 0,
        ;
        let offset = BytesAddress::new((first as u64) * (element_size as u64));
        let size = BytesAddress::new((count as u64) * (element_size as u64));
        self.slice_bytes(offset, size)
    }

    /// How many elements of `element_size` bytes the part holds.
    pub fn count(self, element_size: usize) -> (count: u64)
        requires
            element_size > 0,
        ensures
            count == self.size.0 / (element_size as u64),
    {
        self.size.get() / (element_size as u64)
    }

    /// What has to be known to draw from a vertex buffer of this part, with
    /// vertices of `vertex_size` bytes.
    pub fn vertex_info(self, vertex_size: usize) -> (info: VertexSourceInfo)
        requires
            vertex_size > 0,
            self.size.0 / (vertex_size as u64) <= u32::MAX,
        ensures
            info == (VertexSourceInfo::VertexBuffer {
                vertex_count: (self.size.0 / (vertex_size as u64)) as u32,
            }),
    {
        VertexSourceInfo::VertexBuffer { vertex_count: self.count(vertex_size) as u32 }
    }

    /// What has to be known to draw from an index buffer of this part; an
    /// index has two bytes.
    pub fn index_info(self) -> (info: VertexSourceInfo)
        requires
            self.size.0 / 2 <= u32::MAX,
        ensures
            info == (VertexSourceInfo::VertexAndIndexBuffer {
                index_count: (self.size.0 / 2) as u32,
            }),
    {
        VertexSourceInfo::VertexAndIndexBuffer { index_count: self.count(2) as u32 }
    }
}

} // verus!
