//! The fixed-capacity per-frame buffer set: staged vertex and index data with
//! their cursors. The set is reset at frame start and appended to during
//! submission; the staged bytes are what the host hands the backend, at the
//! byte offsets the cursors give.
use vstd::prelude::*;

verus! {

use crate::MAX_VERTEX;
use crate::MAX_INDEX;
use crate::draw::Vertex;
use crate::draw::VERTEX_STRIDE;
use vstd::bytes::spec_u16_to_le_bytes;
use vstd::bytes::spec_u32_to_le_bytes;
use vstd::bytes::u16_to_le_bytes;
use vstd::bytes::u32_to_le_bytes;

/// Bytes of one 16-bit index.
pub const INDEX_SIZE: u64 = 2;

/// Bytes of the projection uniform: one 4-by-4 matrix of 32-bit words.
pub const PROJECTION_BYTES: u64 = 64;

/// The per-frame buffer set: the staged vertex records and indices of the
/// frame, with cursors counting them.
pub struct Buffers {
    pub vertex_data: Vec<Vertex>,
    pub index_data: Vec<u16>,
    pub vertex_len: u32,
    pub index_len: u32,
}

impl Buffers {
    /// The cursors count the staged records, stay within capacity, and
    /// advance in lockstep: six indices for every four vertices.
    pub open spec fn wf(self) -> bool {
        &&& self.vertex_data@.len() == self.vertex_len
        &&& self.index_data@.len() == self.index_len
        &&& self.vertex_len <= MAX_VERTEX
        &&& self.index_len <= MAX_INDEX
        &&& 3 * self.vertex_len == 2 * self.index_len
    }

    /// An empty buffer set.
    pub fn new() -> (r: Buffers)
        ensures
            r.wf(),
            r.vertex_len == 0,
            r.index_len == 0,
            r.vertex_data@ == Seq::<Vertex>::empty(),
            r.index_data@ == Seq::<u16>::empty(),
    {
        Buffers {
            vertex_data: Vec::new(),
            index_data: Vec::new(),
            vertex_len: 0,
            index_len: 0,
        }
    }

    /// Clears the cursors and the staged data for the next frame; the
    /// allocated capacity is reused, never reallocated per frame.
    pub fn reset(&mut self)
        ensures
            final(self).wf(),
            final(self).vertex_len == 0,
            final(self).index_len == 0,
            final(self).vertex_data@ == Seq::<Vertex>::empty(),
            final(self).index_data@ == Seq::<u16>::empty(),
    {
        self.vertex_data.clear();
        self.index_data.clear();
        self.vertex_len = 0;
        self.index_len = 0;
    }

    /// The byte sizes the backend buffers are allocated with: the vertex
    /// buffer, the index buffer, and the projection uniform buffer.
    pub fn buffer_byte_sizes() -> (r: (u64, u64, u64))
        ensures
            r.0 == VERTEX_STRIDE * MAX_VERTEX as u64,
            r.1 == INDEX_SIZE * MAX_INDEX as u64,
            r.2 == PROJECTION_BYTES,
    {
        (VERTEX_STRIDE * MAX_VERTEX as u64, INDEX_SIZE * MAX_INDEX as u64, PROJECTION_BYTES)
    }

    /// The byte offset at which the next vertex write lands.
    pub fn vertex_byte_offset(&self) -> (r: u64)
        requires
            self.wf(),
        ensures
            r == VERTEX_STRIDE * self.vertex_len,
    {
        VERTEX_STRIDE * (self.vertex_len as u64)
    }

    /// The byte offset at which the next index write lands.
    pub fn index_byte_offset(&self) -> (r: u64)
        requires
            self.wf(),
        ensures
            r == INDEX_SIZE * self.index_len,
    {
        INDEX_SIZE * (self.index_len as u64)
    }

    /// The staged vertex records as interleaved little-endian bytes.
    pub fn vertex_bytes(&self) -> (r: Vec<u8>)
        ensures
            r@ == vertices_le_bytes(self.vertex_data@),
            r@.len() == VERTEX_STRIDE * self.vertex_data@.len(),
    {
        proof {
            lemma_vertices_le_bytes_len(self.vertex_data@);
            assert(self.vertex_data@.take(0) =~= Seq::<Vertex>::empty());
        }
        let mut r: Vec<u8> = Vec::new();
        let mut i: usize = 0;
        while i < self.vertex_data.len()
            invariant
                i <= self.vertex_data@.len(),
                r@ == vertices_le_bytes(self.vertex_data@.take(i as int)),
            decreases self.vertex_data@.len() - i,
        {
            let ghost prev = r@;
            let v = self.vertex_data[i];
            let mut b = u32_to_le_bytes(v.pos_x);
            r.append(&mut b);
            let mut b = u32_to_le_bytes(v.pos_y);
            r.append(&mut b);
            let mut b = u32_to_le_bytes(v.pos_z);
            r.append(&mut b);
            let mut b = u32_to_le_bytes(v.uv_u);
            r.append(&mut b);
            let mut b = u32_to_le_bytes(v.uv_v);
            r.append(&mut b);
            let mut b = u32_to_le_bytes(v.texture_index);
            r.append(&mut b);
            i = i + 1;
            proof {
                let t = self.vertex_data@.take(i as int);
                assert(t.drop_last() =~= self.vertex_data@.take(i as int - 1));
                assert(t.last() == self.vertex_data@[i as int - 1]);
                assert(r@ =~= vertices_le_bytes(t.drop_last()) + vertex_le_bytes(t.last()));
            }
        }
        proof {
            assert(self.vertex_data@.take(self.vertex_data@.len() as int) =~= self.vertex_data@);
        }
        r
    }

    /// The staged indices as little-endian bytes, two an index, in order.
    pub fn index_bytes(&self) -> (r: Vec<u8>)
        ensures
            r@ == indices_le_bytes(self.index_data@),
            r@.len() == INDEX_SIZE * self.index_data@.len(),
    {
        proof {
            lemma_indices_le_bytes_len(self.index_data@);
            assert(self.index_data@.take(0) =~= Seq::<u16>::empty());
        }
        let mut r: Vec<u8> = Vec::new();
        let mut i: usize = 0;
        while i < self.index_data.len()
            invariant
                i <= self.index_data@.len(),
                r@ == indices_le_bytes(self.index_data@.take(i as int)),
            decreases self.index_data@.len() - i,
        {
            let mut b = u16_to_le_bytes(self.index_data[i]);
            r.append(&mut b);
            i = i + 1;
            proof {
                let t = self.index_data@.take(i as int);
                assert(t.drop_last() =~= self.index_data@.take(i as int - 1));
                assert(t.last() == self.index_data@[i as int - 1]);
                assert(r@ =~= indices_le_bytes(t.drop_last()) + spec_u16_to_le_bytes(t.last()));
            }
        }
        proof {
            assert(self.index_data@.take(self.index_data@.len() as int) =~= self.index_data@);
        }
        r
    }
}

/// The 24 little-endian bytes of one vertex record, fields in wire order.
pub open spec fn vertex_le_bytes(v: Vertex) -> Seq<u8> {
    spec_u32_to_le_bytes(v.pos_x) + spec_u32_to_le_bytes(v.pos_y) + spec_u32_to_le_bytes(v.pos_z)
        + spec_u32_to_le_bytes(v.uv_u) + spec_u32_to_le_bytes(v.uv_v) + spec_u32_to_le_bytes(
        v.texture_index,
    )
}

/// The interleaved little-endian bytes of the vertex records, in order.
pub open spec fn vertices_le_bytes(vs: Seq<Vertex>) -> Seq<u8>
    decreases vs.len(),
{
    if vs.len() == 0 {
        Seq::empty()
    } else {
        vertices_le_bytes(vs.drop_last()) + vertex_le_bytes(vs.last())
    }
}

/// The little-endian bytes of the indices, in order.
pub open spec fn indices_le_bytes(ixs: Seq<u16>) -> Seq<u8>
    decreases ixs.len(),
{
    if ixs.len() == 0 {
        Seq::empty()
    } else {
        indices_le_bytes(ixs.drop_last()) + spec_u16_to_le_bytes(ixs.last())
    }
}

/// The vertex bytes are 24 a record.
pub proof fn lemma_vertices_le_bytes_len(vs: Seq<Vertex>)
    ensures
        vertices_le_bytes(vs).len() == VERTEX_STRIDE * vs.len(),
    decreases vs.len(),
{
    vstd::bytes::lemma_auto_spec_u32_to_from_le_bytes();
    if vs.len() > 0 {
        lemma_vertices_le_bytes_len(vs.drop_last());
    }
}

/// The index bytes are two an index.
pub proof fn lemma_indices_le_bytes_len(ixs: Seq<u16>)
    ensures
        indices_le_bytes(ixs).len() == INDEX_SIZE * ixs.len(),
    decreases ixs.len(),
{
    vstd::bytes::lemma_auto_spec_u16_to_from_le_bytes();
    if ixs.len() > 0 {
        lemma_indices_le_bytes_len(ixs.drop_last());
    }
}

} // verus!
