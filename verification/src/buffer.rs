//! GPU memory allocations: the untyped buffer and its typed wrappers.
//!
//! A buffer's layout — its size and usage flags — is fixed at creation;
//! its contents may be rewritten in place through the queue. Contents are
//! modelled as the byte image the GPU holds.

use vstd::prelude::*;

verus! {

use crate::bytes::{
    bytes_to_words, bytes_words, lemma_bytes_words_roundtrip, lemma_words_bytes_len, words16_bytes,
    words16_to_bytes, words_bytes, words_to_bytes,
};
use crate::gpu::GpuContext;
use crate::render_pass::IndexFormat;

/// Usage bit: the buffer may be read back.
pub const BUFFER_USAGE_MAP_READ: u32 = 0x1;

/// Usage bit: the buffer may be written from the host when mapped.
pub const BUFFER_USAGE_MAP_WRITE: u32 = 0x2;

/// Usage bit: the buffer may be the source of a copy.
pub const BUFFER_USAGE_COPY_SRC: u32 = 0x4;

/// Usage bit: the buffer may be the target of a copy or queue write.
pub const BUFFER_USAGE_COPY_DST: u32 = 0x8;

/// Usage bit: the buffer may hold index data.
pub const BUFFER_USAGE_INDEX: u32 = 0x10;

/// Usage bit: the buffer may hold vertex data.
pub const BUFFER_USAGE_VERTEX: u32 = 0x20;

/// Usage bit: the buffer may back a uniform binding.
pub const BUFFER_USAGE_UNIFORM: u32 = 0x40;

/// Usage bit: the buffer may back a storage binding.
pub const BUFFER_USAGE_STORAGE: u32 = 0x80;

/// Values that can be uploaded into a buffer: anything with a fixed layout
/// as a sequence of 32-bit words.
pub trait BufferData {
    /// The words this value uploads, in layout order.
    spec fn spec_words(&self) -> Seq<u32>;

    /// Lay the value out as its words.
    fn to_words(&self) -> (r: Vec<u32>)
        ensures
            r@ == self.spec_words(),
    ;
}

/// The words of a sequence of values, concatenated in order.
pub open spec fn data_words<T: BufferData>(s: Seq<T>) -> Seq<u32>
    decreases s.len(),
{
    if s.len() == 0 {
        Seq::empty()
    } else {
        s[0].spec_words() + data_words(s.drop_first())
    }
}

/// Appending a value appends its words.
pub proof fn lemma_data_words_push<T: BufferData>(s: Seq<T>, x: T)
    ensures
        data_words(s.push(x)) == data_words(s) + x.spec_words(),
    decreases s.len(),
{
    if s.len() == 0 {
        assert(s.push(x).drop_first() =~= Seq::<T>::empty());
        assert(data_words(Seq::<T>::empty()) =~= Seq::<u32>::empty());
        assert(data_words(s) =~= Seq::<u32>::empty());
        assert(data_words(s.push(x)) =~= data_words(s) + x.spec_words());
    } else {
        assert(s.push(x).drop_first() =~= s.drop_first().push(x));
        lemma_data_words_push(s.drop_first(), x);
        assert(data_words(s.push(x)) =~= data_words(s) + x.spec_words());
    }
}

/// `s` with the bytes of `d` written over it from `off`.
pub open spec fn splice_bytes(s: Seq<u8>, off: int, d: Seq<u8>) -> Seq<u8> {
    Seq::new(
        s.len(),
        |i: int|
            if off <= i < off + d.len() {
                d[i - off]
            } else {
                s[i]
            },
    )
}

/// Reading back a spliced range returns exactly what was written.
pub proof fn lemma_splice_readback(s: Seq<u8>, off: int, d: Seq<u8>)
    requires
        0 <= off,
        off + d.len() <= s.len(),
    ensures
        splice_bytes(s, off, d).subrange(off, off + d.len()) == d,
{
    assert(splice_bytes(s, off, d).subrange(off, off + d.len()) =~= d);
}

/// Writing a word sequence and reading its words back at the same offset
/// returns the words unchanged.
pub proof fn lemma_word_write_readback(s: Seq<u8>, off: int, ws: Seq<u32>)
    requires
        0 <= off,
        off + words_bytes(ws).len() <= s.len(),
    ensures
        bytes_words(splice_bytes(s, off, words_bytes(ws)).subrange(off, off + words_bytes(ws).len()))
            == ws,
{
    lemma_splice_readback(s, off, words_bytes(ws));
    lemma_bytes_words_roundtrip(ws);
}

/// A GPU memory allocation: an identity, a byte image, and fixed usage
/// flags.
#[derive(Debug)]
pub struct Buffer {
    /// The identity of the backing allocation.
    pub id: u64,
    /// The byte image the GPU holds.
    pub contents: Vec<u8>,
    /// Usage flags, fixed at creation.
    pub usage: u32,
}

impl Clone for Buffer {
    /// A cloned handle denotes the same backing allocation: same identity,
    /// same image, same usage.
    fn clone(&self) -> (r: Self)
        ensures
            r.id == self.id,
            r.contents@ == self.contents@,
            r.usage == self.usage,
    {
        Buffer {
            id: self.id,
            contents: crate::bytes::copy_vec(&self.contents),
            usage: self.usage,
        }
    }
}

impl Buffer {
    /// A buffer holding exactly these bytes.
    pub fn new_bytes(ctx: &mut GpuContext, _label: Option<&str>, data: Vec<u8>, usage: u32) -> (r:
        Buffer)
        requires
            old(ctx).can_alloc(1),
        ensures
            r.id == old(ctx).next_id,
            r.contents@ == data@,
            r.usage == usage,
            final(ctx).next_id == old(ctx).next_id + 1,
            final(ctx).features == old(ctx).features,
            final(ctx).limits == old(ctx).limits,
            final(ctx).device_label == old(ctx).device_label,
            final(ctx).submitted == old(ctx).submitted,
    {
        let id = ctx.fresh_id();
        Buffer { id, contents: data, usage }
    }

    /// A buffer holding the laid-out words of `data`.
    pub fn new<T: BufferData>(
        ctx: &mut GpuContext,
        label: Option<&str>,
        data: &Vec<T>,
        usage: u32,
    ) -> (r: Buffer)
        requires
            old(ctx).can_alloc(1),
        ensures
            r.id == old(ctx).next_id,
            r.contents@ == words_bytes(data_words(data@)),
            r.usage == usage,
            final(ctx).next_id == old(ctx).next_id + 1,
            final(ctx).features == old(ctx).features,
            final(ctx).limits == old(ctx).limits,
            final(ctx).device_label == old(ctx).device_label,
            final(ctx).submitted == old(ctx).submitted,
    {
        let words = layout_words(data);
        let bytes = words_to_bytes(&words);
        Buffer::new_bytes(ctx, label, bytes, usage)
    }

    /// An empty (zero-filled) allocation of `size` bytes.
    pub fn new_empty(ctx: &mut GpuContext, _label: Option<&str>, size: usize, usage: u32) -> (r:
        Buffer)
        requires
            old(ctx).can_alloc(1),
        ensures
            r.id == old(ctx).next_id,
            r.contents@.len() == size,
            forall|i: int| 0 <= i < size ==> r.contents@[i] == 0u8,
            r.usage == usage,
            final(ctx).next_id == old(ctx).next_id + 1,
            final(ctx).features == old(ctx).features,
            final(ctx).limits == old(ctx).limits,
            final(ctx).device_label == old(ctx).device_label,
            final(ctx).submitted == old(ctx).submitted,
    {
        let id = ctx.fresh_id();
        let mut contents: Vec<u8> = Vec::new();
        let mut i: usize = 0;
        while i < size
            invariant
                i <= size,
                contents@.len() == i,
                forall|k: int| 0 <= k < i ==> contents@[k] == 0u8,
            decreases size - i,
        {
            contents.push(0);
            i = i + 1;
        }
        Buffer { id, contents, usage }
    }

    /// Overwrite `data.len()` bytes from byte offset `offset` through the
    /// queue. The caller must stay within the allocation; an oversized write
    /// is a fatal error of the backing API.
    pub fn write_bytes_at(&mut self, offset: usize, data: &Vec<u8>)
        requires
            offset + data@.len() <= old(self).contents@.len(),
        ensures
            final(self).contents@ == splice_bytes(old(self).contents@, offset as int, data@),
            final(self).id == old(self).id,
            final(self).usage == old(self).usage,
    {
        let total = self.contents.len();
        let mut i: usize = 0;
        while i < data.len()
            invariant
                i <= data@.len(),
                total == old(self).contents@.len(),
                offset + data@.len() <= self.contents@.len(),
                self.contents@.len() == old(self).contents@.len(),
                self.id == old(self).id,
                self.usage == old(self).usage,
                forall|k: int| 0 <= k < i ==> self.contents@[offset + k] == data@[k],
                forall|k: int|
                    0 <= k < self.contents@.len() && !(offset <= k < offset + i)
                        ==> self.contents@[k] == old(self).contents@[k],
            decreases data@.len() - i,
        {
            self.contents.set(offset + i, data[i]);
            i = i + 1;
        }
        proof {
            assert(self.contents@ =~= splice_bytes(old(self).contents@, offset as int, data@));
        }
    }

    /// Upload the words of `data` at byte offset 0.
    pub fn write<T: BufferData>(&mut self, data: &Vec<T>)
        requires
            words_bytes(data_words(data@)).len() <= old(self).contents@.len(),
        ensures
            final(self).contents@ == splice_bytes(
                old(self).contents@,
                0,
                words_bytes(data_words(data@)),
            ),
            final(self).id == old(self).id,
            final(self).usage == old(self).usage,
    {
        let words = layout_words(data);
        let bytes = words_to_bytes(&words);
        self.write_bytes_at(0, &bytes);
    }

    /// Read `len` bytes back from byte offset `offset`.
    pub fn read_bytes_at(&self, offset: usize, len: usize) -> (r: Vec<u8>)
        requires
            offset + len <= self.contents@.len(),
        ensures
            r@ == self.contents@.subrange(offset as int, offset as int + len),
    {
        let total = self.contents.len();
        let mut r: Vec<u8> = Vec::new();
        let mut i: usize = 0;
        while i < len
            invariant
                i <= len,
                total == self.contents@.len(),
                offset + len <= self.contents@.len(),
                r@ == self.contents@.subrange(offset as int, offset as int + i),
            decreases len - i,
        {
            r.push(self.contents[offset + i]);
            proof {
                assert(self.contents@.subrange(offset as int, offset as int + i + 1)
                    =~= self.contents@.subrange(offset as int, offset as int + i).push(
                    self.contents@[offset + i],
                ));
            }
            i = i + 1;
        }
        r
    }

    /// The size of the allocation in bytes.
    pub fn size(&self) -> (r: usize)
        ensures
            r == self.contents@.len(),
    {
        self.contents.len()
    }

    /// The usage flags fixed at creation.
    pub fn usage(&self) -> (r: u32)
        ensures
            r == self.usage,
    {
        self.usage
    }
}

/// The words of a whole vector of values, in order.
pub fn layout_words<T: BufferData>(data: &Vec<T>) -> (r: Vec<u32>)
    ensures
        r@ == data_words(data@),
{
    let mut r: Vec<u32> = Vec::new();
    let mut i: usize = 0;
    proof {
        assert(data@.take(0) =~= Seq::<T>::empty());
        assert(data_words(Seq::<T>::empty()) =~= Seq::<u32>::empty());
    }
    while i < data.len()
        invariant
            i <= data@.len(),
            r@ == data_words(data@.take(i as int)),
        decreases data@.len() - i,
    {
        let mut words = data[i].to_words();
        r.append(&mut words);
        proof {
            assert(data@.take(i as int + 1) =~= data@.take(i as int).push(data@[i as int]));
            lemma_data_words_push(data@.take(i as int), data@[i as int]);
        }
        i = i + 1;
    }
    proof {
        assert(data@.take(data@.len() as int) =~= data@);
    }
    r
}

/// A buffer of vertex data.
#[derive(Debug)]
pub struct VertexBuffer {
    pub buffer: Buffer,
}

impl Clone for VertexBuffer {
    /// A cloned handle denotes the same backing allocation.
    fn clone(&self) -> (r: Self)
        ensures
            r.buffer.id == self.buffer.id,
            r.buffer.contents@ == self.buffer.contents@,
            r.buffer.usage == self.buffer.usage,
    {
        VertexBuffer { buffer: self.buffer.clone() }
    }
}

impl VertexBuffer {
    /// A vertex buffer holding the laid-out vertices.
    pub fn new<T: BufferData>(ctx: &mut GpuContext, label: Option<&str>, vertices: &Vec<T>) -> (r:
        VertexBuffer)
        requires
            old(ctx).can_alloc(1),
        ensures
            r.buffer.id == old(ctx).next_id,
            r.buffer.contents@ == words_bytes(data_words(vertices@)),
            r.buffer.usage == BUFFER_USAGE_VERTEX | BUFFER_USAGE_COPY_DST,
            final(ctx).next_id == old(ctx).next_id + 1,
            final(ctx).features == old(ctx).features,
            final(ctx).limits == old(ctx).limits,
            final(ctx).device_label == old(ctx).device_label,
            final(ctx).submitted == old(ctx).submitted,
    {
        VertexBuffer {
            buffer: Buffer::new(ctx, label, vertices, BUFFER_USAGE_VERTEX | BUFFER_USAGE_COPY_DST),
        }
    }

    /// The underlying allocation.
    pub fn buffer(&self) -> (r: &Buffer)
        ensures
            r == &self.buffer,
    {
        &self.buffer
    }
}

/// A buffer of index data that remembers its element width and count, so
/// draw calls need no external bookkeeping.
#[derive(Debug)]
pub struct IndexBuffer {
    pub buffer: Buffer,
    pub format: IndexFormat,
    pub count: u32,
}

impl Clone for IndexBuffer {
    /// A cloned handle denotes the same backing allocation, width and count.
    fn clone(&self) -> (r: Self)
        ensures
            r.buffer.id == self.buffer.id,
            r.buffer.contents@ == self.buffer.contents@,
            r.buffer.usage == self.buffer.usage,
            r.format == self.format,
            r.count == self.count,
    {
        IndexBuffer { buffer: self.buffer.clone(), format: self.format, count: self.count }
    }
}

impl IndexBuffer {
    /// An index buffer of 16-bit indices; the count is the number of
    /// indices supplied.
    pub fn new_u16(ctx: &mut GpuContext, label: Option<&str>, indices: &Vec<u16>) -> (r:
        IndexBuffer)
        requires
            old(ctx).can_alloc(1),
            indices@.len() <= u32::MAX,
        ensures
            r.buffer.id == old(ctx).next_id,
            r.buffer.contents@ == words16_bytes(indices@),
            r.buffer.usage == BUFFER_USAGE_INDEX | BUFFER_USAGE_COPY_DST,
            r.format == IndexFormat::Uint16,
            r.count == indices@.len(),
            final(ctx).next_id == old(ctx).next_id + 1,
            final(ctx).features == old(ctx).features,
            final(ctx).limits == old(ctx).limits,
            final(ctx).device_label == old(ctx).device_label,
            final(ctx).submitted == old(ctx).submitted,
    {
        let count = indices.len() as u32;
        let bytes = words16_to_bytes(indices);
        let buffer = Buffer::new_bytes(ctx, label, bytes, BUFFER_USAGE_INDEX | BUFFER_USAGE_COPY_DST);
        IndexBuffer { buffer, format: IndexFormat::Uint16, count }
    }

    /// An index buffer of 32-bit indices.
    pub fn new_u32(ctx: &mut GpuContext, label: Option<&str>, indices: &Vec<u32>) -> (r:
        IndexBuffer)
        requires
            old(ctx).can_alloc(1),
            indices@.len() <= u32::MAX,
        ensures
            r.buffer.id == old(ctx).next_id,
            r.buffer.contents@ == words_bytes(indices@),
            r.buffer.usage == BUFFER_USAGE_INDEX | BUFFER_USAGE_COPY_DST,
            r.format == IndexFormat::Uint32,
            r.count == indices@.len(),
            final(ctx).next_id == old(ctx).next_id + 1,
            final(ctx).features == old(ctx).features,
            final(ctx).limits == old(ctx).limits,
            final(ctx).device_label == old(ctx).device_label,
            final(ctx).submitted == old(ctx).submitted,
    {
        let count = indices.len() as u32;
        let bytes = words_to_bytes(indices);
        let buffer = Buffer::new_bytes(ctx, label, bytes, BUFFER_USAGE_INDEX | BUFFER_USAGE_COPY_DST);
        IndexBuffer { buffer, format: IndexFormat::Uint32, count }
    }

    /// The element width of the indices.
    pub fn format(&self) -> (r: IndexFormat)
        ensures
            r == self.format,
    {
        self.format
    }

    /// How many indices the buffer holds.
    pub fn count(&self) -> (r: u32)
        ensures
            r == self.count,
    {
        self.count
    }

    /// The underlying allocation.
    pub fn buffer(&self) -> (r: &Buffer)
        ensures
            r == &self.buffer,
    {
        &self.buffer
    }
}

/// A buffer backing a uniform binding.
#[derive(Debug)]
pub struct UniformBuffer {
    pub buffer: Buffer,
}

impl UniformBuffer {
    /// A uniform buffer holding one laid-out value.
    pub fn new<T: BufferData>(ctx: &mut GpuContext, label: Option<&str>, data: &T) -> (r:
        UniformBuffer)
        requires
            old(ctx).can_alloc(1),
        ensures
            r.buffer.id == old(ctx).next_id,
            r.buffer.contents@ == words_bytes(data.spec_words()),
            r.buffer.usage == BUFFER_USAGE_UNIFORM | BUFFER_USAGE_COPY_DST,
            final(ctx).next_id == old(ctx).next_id + 1,
            final(ctx).features == old(ctx).features,
            final(ctx).limits == old(ctx).limits,
            final(ctx).device_label == old(ctx).device_label,
            final(ctx).submitted == old(ctx).submitted,
    {
        let words = data.to_words();
        let bytes = words_to_bytes(&words);
        UniformBuffer {
            buffer: Buffer::new_bytes(
                ctx,
                label,
                bytes,
                BUFFER_USAGE_UNIFORM | BUFFER_USAGE_COPY_DST,
            ),
        }
    }

    /// An empty (zero-filled) uniform allocation of `size` bytes.
    pub fn new_empty(ctx: &mut GpuContext, label: Option<&str>, size: usize) -> (r: UniformBuffer)
        requires
            old(ctx).can_alloc(1),
        ensures
            r.buffer.id == old(ctx).next_id,
            r.buffer.contents@.len() == size,
            forall|i: int| 0 <= i < size ==> r.buffer.contents@[i] == 0u8,
            r.buffer.usage == BUFFER_USAGE_UNIFORM | BUFFER_USAGE_COPY_DST,
            final(ctx).next_id == old(ctx).next_id + 1,
            final(ctx).features == old(ctx).features,
            final(ctx).limits == old(ctx).limits,
            final(ctx).device_label == old(ctx).device_label,
            final(ctx).submitted == old(ctx).submitted,
    {
        UniformBuffer {
            buffer: Buffer::new_empty(
                ctx,
                label,
                size,
                BUFFER_USAGE_UNIFORM | BUFFER_USAGE_COPY_DST,
            ),
        }
    }

    /// Upload one laid-out value at offset 0.
    pub fn write<T: BufferData>(&mut self, data: &T)
        requires
            4 * data.spec_words().len() <= old(self).buffer.contents@.len(),
        ensures
            final(self).buffer.contents@ == splice_bytes(
                old(self).buffer.contents@,
                0,
                words_bytes(data.spec_words()),
            ),
            final(self).buffer.id == old(self).buffer.id,
            final(self).buffer.usage == old(self).buffer.usage,
    {
        let words = data.to_words();
        let bytes = words_to_bytes(&words);
        proof {
            lemma_words_bytes_len(words@);
        }
        self.buffer.write_bytes_at(0, &bytes);
    }

    /// Upload raw words at a byte offset.
    pub fn write_words(&mut self, offset: usize, words: &Vec<u32>)
        requires
            offset + 4 * words@.len() <= old(self).buffer.contents@.len(),
        ensures
            final(self).buffer.contents@ == splice_bytes(
                old(self).buffer.contents@,
                offset as int,
                words_bytes(words@),
            ),
            final(self).buffer.id == old(self).buffer.id,
            final(self).buffer.usage == old(self).buffer.usage,
    {
        let bytes = words_to_bytes(words);
        proof {
            lemma_words_bytes_len(words@);
        }
        self.buffer.write_bytes_at(offset, &bytes);
    }

    /// Read `count` words back from a byte offset, as the host readback
    /// mechanism returns them.
    pub fn read_words(&self, offset: usize, count: usize) -> (r: Vec<u32>)
        requires
            offset + 4 * count <= self.buffer.contents@.len(),
            4 * count <= usize::MAX,
        ensures
            r@ == bytes_words(
                self.buffer.contents@.subrange(offset as int, offset as int + 4 * count),
            ),
    {
        let bytes = self.buffer.read_bytes_at(offset, 4 * count);
        bytes_to_words(&bytes)
    }

    /// The underlying allocation.
    pub fn buffer(&self) -> (r: &Buffer)
        ensures
            r == &self.buffer,
    {
        &self.buffer
    }
}

/// A buffer backing a storage binding.
#[derive(Debug)]
pub struct StorageBuffer {
    pub buffer: Buffer,
}

impl Clone for StorageBuffer {
    /// A cloned handle denotes the same backing allocation.
    fn clone(&self) -> (r: Self)
        ensures
            r.buffer.id == self.buffer.id,
            r.buffer.contents@ == self.buffer.contents@,
            r.buffer.usage == self.buffer.usage,
    {
        StorageBuffer { buffer: self.buffer.clone() }
    }
}

impl StorageBuffer {
    /// A read-only storage buffer holding the laid-out values.
    pub fn new<T: BufferData>(ctx: &mut GpuContext, label: Option<&str>, data: &Vec<T>) -> (r:
        StorageBuffer)
        requires
            old(ctx).can_alloc(1),
        ensures
            r.buffer.id == old(ctx).next_id,
            r.buffer.contents@ == words_bytes(data_words(data@)),
            r.buffer.usage == BUFFER_USAGE_STORAGE | BUFFER_USAGE_COPY_DST,
            final(ctx).next_id == old(ctx).next_id + 1,
            final(ctx).features == old(ctx).features,
            final(ctx).limits == old(ctx).limits,
            final(ctx).device_label == old(ctx).device_label,
            final(ctx).submitted == old(ctx).submitted,
    {
        StorageBuffer {
            buffer: Buffer::new(ctx, label, data, BUFFER_USAGE_STORAGE | BUFFER_USAGE_COPY_DST),
        }
    }

    /// A storage buffer that may also be copied back out.
    pub fn new_read_write<T: BufferData>(
        ctx: &mut GpuContext,
        label: Option<&str>,
        data: &Vec<T>,
    ) -> (r: StorageBuffer)
        requires
            old(ctx).can_alloc(1),
        ensures
            r.buffer.id == old(ctx).next_id,
            r.buffer.contents@ == words_bytes(data_words(data@)),
            r.buffer.usage == BUFFER_USAGE_STORAGE | BUFFER_USAGE_COPY_DST
                | BUFFER_USAGE_COPY_SRC,
            final(ctx).next_id == old(ctx).next_id + 1,
            final(ctx).features == old(ctx).features,
            final(ctx).limits == old(ctx).limits,
            final(ctx).device_label == old(ctx).device_label,
            final(ctx).submitted == old(ctx).submitted,
    {
        StorageBuffer {
            buffer: Buffer::new(
                ctx,
                label,
                data,
                BUFFER_USAGE_STORAGE | BUFFER_USAGE_COPY_DST | BUFFER_USAGE_COPY_SRC,
            ),
        }
    }

    /// An empty (zero-filled) storage allocation of `size` bytes.
    pub fn new_empty(ctx: &mut GpuContext, label: Option<&str>, size: usize) -> (r: StorageBuffer)
        requires
            old(ctx).can_alloc(1),
        ensures
            r.buffer.id == old(ctx).next_id,
            r.buffer.contents@.len() == size,
            forall|i: int| 0 <= i < size ==> r.buffer.contents@[i] == 0u8,
            r.buffer.usage == BUFFER_USAGE_STORAGE | BUFFER_USAGE_COPY_DST,
            final(ctx).next_id == old(ctx).next_id + 1,
            final(ctx).features == old(ctx).features,
            final(ctx).limits == old(ctx).limits,
            final(ctx).device_label == old(ctx).device_label,
            final(ctx).submitted == old(ctx).submitted,
    {
        StorageBuffer {
            buffer: Buffer::new_empty(
                ctx,
                label,
                size,
                BUFFER_USAGE_STORAGE | BUFFER_USAGE_COPY_DST,
            ),
        }
    }

    /// Upload laid-out values at offset 0.
    pub fn write<T: BufferData>(&mut self, data: &Vec<T>)
        requires
            words_bytes(data_words(data@)).len() <= old(self).buffer.contents@.len(),
        ensures
            final(self).buffer.contents@ == splice_bytes(
                old(self).buffer.contents@,
                0,
                words_bytes(data_words(data@)),
            ),
            final(self).buffer.id == old(self).buffer.id,
            final(self).buffer.usage == old(self).buffer.usage,
    {
        let words = layout_words(data);
        let bytes = words_to_bytes(&words);
        self.buffer.write_bytes_at(0, &bytes);
    }

    /// The underlying allocation.
    pub fn buffer(&self) -> (r: &Buffer)
        ensures
            r == &self.buffer,
    {
        &self.buffer
    }
}

} // verus!
