use soyuz::buffer::{
    Buffer, IndexBuffer, StorageBuffer, UniformBuffer, VertexBuffer, BUFFER_USAGE_COPY_DST,
    BUFFER_USAGE_INDEX, BUFFER_USAGE_UNIFORM, BUFFER_USAGE_VERTEX,
};
use soyuz::bytes::{bytes_to_words, words16_to_bytes, words_to_bytes};
use soyuz::components::GltfVertex;
use soyuz::gpu::{GpuContext, Limits};
use soyuz::render_pass::IndexFormat;

fn ctx() -> GpuContext {
    GpuContext::new(0, Limits::defaults(), None)
}

#[test]
fn buffer_new_bytes_holds_exact_contents() {
    let mut gpu = ctx();
    let data = vec![1u8, 2, 3, 4, 5];
    let b = Buffer::new_bytes(&mut gpu, Some("raw"), data.clone(), BUFFER_USAGE_COPY_DST);
    assert_eq!(b.contents, data);
    assert_eq!(b.usage, BUFFER_USAGE_COPY_DST);
    assert_eq!(b.size(), 5);
    assert_eq!(b.id, 0);
    assert_eq!(gpu.next_id, 1);
}

#[test]
fn buffer_new_empty_is_zero_filled() {
    let mut gpu = ctx();
    let b = Buffer::new_empty(&mut gpu, None, 16, BUFFER_USAGE_UNIFORM);
    assert_eq!(b.contents, vec![0u8; 16]);
}

#[test]
fn buffer_write_at_splices_bytes() {
    let mut gpu = ctx();
    let mut b = Buffer::new_bytes(
        &mut gpu,
        None,
        vec![9u8; 8],
        BUFFER_USAGE_COPY_DST,
    );
    b.write_bytes_at(2, &vec![1u8, 2, 3]);
    assert_eq!(b.contents, vec![9, 9, 1, 2, 3, 9, 9, 9]);
    let back = b.read_bytes_at(2, 3);
    assert_eq!(back, vec![1, 2, 3]);
}

#[test]
fn uniform_float_roundtrip_same_offset() {
    // Writing floats into a uniform buffer and reading them back through
    // the same-offset mechanism returns the same floats bit for bit.
    let mut gpu = ctx();
    let mut u = UniformBuffer::new_empty(&mut gpu, Some("uniform"), 64);
    let floats = [0.5f32, -1.25, 3.1415927, 0.0, 1e-8, -0.0];
    let words: Vec<u32> = floats.iter().map(|f| f.to_bits()).collect();
    u.write_words(8, &words);
    let back = u.read_words(8, words.len());
    assert_eq!(back, words);
    for (w, f) in back.iter().zip(floats.iter()) {
        assert_eq!(f32::from_bits(*w), *f);
    }
}

#[test]
fn uniform_roundtrip_at_offset_zero() {
    let mut gpu = ctx();
    let mut u = UniformBuffer::new_empty(&mut gpu, None, 32);
    let words = vec![0xDEAD_BEEFu32, 0, u32::MAX, 7];
    u.write_words(0, &words);
    assert_eq!(u.read_words(0, 4), words);
}

#[test]
fn words_bytes_roundtrip() {
    let words = vec![0u32, 1, 0x0102_0304, u32::MAX];
    let bytes = words_to_bytes(&words);
    assert_eq!(bytes.len(), 16);
    assert_eq!(&bytes[4..8], &[1, 0, 0, 0]);
    assert_eq!(&bytes[8..12], &[4, 3, 2, 1]);
    assert_eq!(bytes_to_words(&bytes), words);
}

#[test]
fn index_buffer_u16_tracks_count_and_format() {
    let mut gpu = ctx();
    let indices: Vec<u16> = vec![0, 1, 2, 2, 1, 3];
    let ib = IndexBuffer::new_u16(&mut gpu, None, &indices);
    assert_eq!(ib.count(), 6);
    assert_eq!(ib.format(), IndexFormat::Uint16);
    assert_eq!(ib.buffer.usage, BUFFER_USAGE_INDEX | BUFFER_USAGE_COPY_DST);
    assert_eq!(ib.buffer.contents, words16_to_bytes(&indices));
}

#[test]
fn index_buffer_u32_tracks_count_and_format() {
    let mut gpu = ctx();
    let indices: Vec<u32> = vec![0, 1, 2];
    let ib = IndexBuffer::new_u32(&mut gpu, None, &indices);
    assert_eq!(ib.count(), 3);
    assert_eq!(ib.format(), IndexFormat::Uint32);
}

#[test]
fn vertex_buffer_lays_vertices_out_in_order() {
    let mut gpu = ctx();
    let v = GltfVertex::new(
        [1.0f32.to_bits(), 2.0f32.to_bits(), 3.0f32.to_bits()],
        [0, 1.0f32.to_bits(), 0],
        [0.25f32.to_bits(), 0.75f32.to_bits()],
    );
    let vb = VertexBuffer::new(&mut gpu, None, &vec![v]);
    assert_eq!(vb.buffer.usage, BUFFER_USAGE_VERTEX | BUFFER_USAGE_COPY_DST);
    assert_eq!(vb.buffer.contents.len(), 32);
    let words = bytes_to_words(&vb.buffer.contents);
    assert_eq!(
        words,
        vec![
            1.0f32.to_bits(),
            2.0f32.to_bits(),
            3.0f32.to_bits(),
            0,
            1.0f32.to_bits(),
            0,
            0.25f32.to_bits(),
            0.75f32.to_bits(),
        ]
    );
}

#[test]
fn storage_buffer_usage_flags() {
    let mut gpu = ctx();
    let s = StorageBuffer::new_empty(&mut gpu, None, 8);
    assert_eq!(s.buffer.usage & 0x80, 0x80);
    assert_eq!(s.buffer.contents, vec![0u8; 8]);
}
