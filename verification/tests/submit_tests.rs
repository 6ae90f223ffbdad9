use std::rc::Rc;

use scenedraw::buffer::Buffers;
use scenedraw::cache::Texture;
use scenedraw::draw::{DrawQueue, DrawTextureObject, QuadGeometry, Vec2C, Vec3C, Vertex};
use scenedraw::vectors::Component;
use scenedraw::{MAX_INDEX, MAX_VERTEX};

fn draw_object(tex: &Rc<Texture>) -> DrawTextureObject {
    let n = |x: f64| Component::Num(x.to_bits());
    DrawTextureObject {
        texture: Rc::clone(tex),
        origin: Vec3C { x: n(0.0), y: n(0.0), z: n(0.0) },
        angles: Vec3C { x: n(0.0), y: n(0.0), z: n(0.0) },
        scale: Vec3C { x: n(1.0), y: n(1.0), z: n(1.0) },
        size: Vec2C { x: n(8.0), y: n(8.0) },
        alpha: 1.0f64.to_bits(),
    }
}

fn geometry(at: f32) -> QuadGeometry {
    QuadGeometry {
        x0: at.to_bits(),
        y0: (at + 1.0).to_bits(),
        x1: (at + 2.0).to_bits(),
        y1: (at + 3.0).to_bits(),
        x2: (at + 4.0).to_bits(),
        y2: (at + 5.0).to_bits(),
        x3: (at + 6.0).to_bits(),
        y3: (at + 7.0).to_bits(),
        z: (at + 8.0).to_bits(),
    }
}

#[test]
fn submitting_three_objects_advances_counters_by_quads() {
    let tex = Rc::new(Texture { id: 1, width: 2, height: 2 });
    let mut queue = DrawQueue::new();
    let mut geoms: Vec<QuadGeometry> = Vec::new();
    for i in 0..3 {
        queue.push(draw_object(&tex));
        geoms.push(geometry(i as f32 * 10.0));
    }
    let mut buffers = Buffers::new();
    let n = queue.submit_draw_queue(&mut buffers, &geoms);
    assert_eq!(n, 3);
    assert_eq!(buffers.vertex_len, 12);
    assert_eq!(buffers.index_len, 18);
    assert_eq!(buffers.vertex_data.len(), 12);
    assert_eq!(buffers.index_data.len(), 18);
    // each object's four vertices carry its position as the texture index
    for i in 0..3u32 {
        for j in 0..4usize {
            assert_eq!(buffers.vertex_data[i as usize * 4 + j].texture_index, i);
        }
    }
    // texture coordinate corners are fixed: (0,0) (1,0) (1,1) (0,1)
    let zero = 0.0f32.to_bits();
    let one = 1.0f32.to_bits();
    let uvs: Vec<(u32, u32)> = buffers.vertex_data[0..4]
        .iter()
        .map(|v| (v.uv_u, v.uv_v))
        .collect();
    assert_eq!(uvs, vec![(zero, zero), (one, zero), (one, one), (zero, one)]);
    // positions come from the supplied geometry, depth shared
    let g = geometry(10.0);
    let v = &buffers.vertex_data[5];
    assert_eq!((v.pos_x, v.pos_y, v.pos_z), (g.x1, g.y1, g.z));
    // indices: the quad pattern offset by the index cursor at each write
    let expected: Vec<u16> = vec![
        0, 2, 1, 0, 3, 2, //
        6, 8, 7, 6, 9, 8, //
        12, 14, 13, 12, 15, 14,
    ];
    assert_eq!(buffers.index_data, expected);
}

#[test]
fn submission_past_capacity_is_clamped() {
    let tex = Rc::new(Texture { id: 1, width: 2, height: 2 });
    let budget = (MAX_VERTEX / 4) as usize;
    let mut queue = DrawQueue::new();
    let mut geoms: Vec<QuadGeometry> = Vec::new();
    for _ in 0..budget + 5 {
        queue.push(draw_object(&tex));
        geoms.push(geometry(0.0));
    }
    let mut buffers = Buffers::new();
    let n = queue.submit_draw_queue(&mut buffers, &geoms);
    assert_eq!(n, budget);
    assert_eq!(buffers.vertex_len, MAX_VERTEX);
    assert_eq!(buffers.index_len, MAX_INDEX);
    assert_eq!(buffers.vertex_data.len(), MAX_VERTEX as usize);
}

#[test]
fn reset_clears_cursors_for_the_next_frame() {
    let tex = Rc::new(Texture { id: 1, width: 2, height: 2 });
    let mut queue = DrawQueue::new();
    queue.push(draw_object(&tex));
    let geoms = vec![geometry(0.0)];
    let mut buffers = Buffers::new();
    queue.submit_draw_queue(&mut buffers, &geoms);
    assert_eq!(buffers.vertex_len, 4);
    buffers.reset();
    assert_eq!(buffers.vertex_len, 0);
    assert_eq!(buffers.index_len, 0);
    assert!(buffers.vertex_data.is_empty());
    assert!(buffers.index_data.is_empty());
}

#[test]
fn byte_offsets_follow_the_cursors() {
    let tex = Rc::new(Texture { id: 1, width: 2, height: 2 });
    let mut queue = DrawQueue::new();
    let mut geoms: Vec<QuadGeometry> = Vec::new();
    for _ in 0..2 {
        queue.push(draw_object(&tex));
        geoms.push(geometry(0.0));
    }
    let mut buffers = Buffers::new();
    assert_eq!(buffers.vertex_byte_offset(), 0);
    assert_eq!(buffers.index_byte_offset(), 0);
    queue.submit_draw_queue(&mut buffers, &geoms);
    assert_eq!(buffers.vertex_byte_offset(), 24 * 8);
    assert_eq!(buffers.index_byte_offset(), 2 * 12);
}

#[test]
fn staged_bytes_are_interleaved_little_endian() {
    let tex = Rc::new(Texture { id: 3, width: 2, height: 2 });
    let mut queue = DrawQueue::new();
    queue.push(draw_object(&tex));
    let geoms = vec![geometry(1.5)];
    let mut buffers = Buffers::new();
    queue.submit_draw_queue(&mut buffers, &geoms);
    let vb = buffers.vertex_bytes();
    assert_eq!(vb.len(), 24 * 4);
    // first vertex: pos_x, pos_y, pos_z, uv, uv, texture_index, least byte first
    let g = geometry(1.5);
    assert_eq!(&vb[0..4], &g.x0.to_le_bytes());
    assert_eq!(&vb[4..8], &g.y0.to_le_bytes());
    assert_eq!(&vb[8..12], &g.z.to_le_bytes());
    assert_eq!(&vb[12..16], &0.0f32.to_bits().to_le_bytes());
    assert_eq!(&vb[16..20], &0.0f32.to_bits().to_le_bytes());
    assert_eq!(&vb[20..24], &0u32.to_le_bytes());
    let ib = buffers.index_bytes();
    assert_eq!(ib.len(), 2 * 6);
    assert_eq!(&ib[0..2], &0u16.to_le_bytes());
    assert_eq!(&ib[2..4], &2u16.to_le_bytes());
}

#[test]
fn buffer_allocation_sizes_cover_the_capacity() {
    let (v, i, p) = Buffers::buffer_byte_sizes();
    assert_eq!(v, 24 * MAX_VERTEX as u64);
    assert_eq!(i, 2 * MAX_INDEX as u64);
    assert_eq!(p, 64);
}

#[test]
fn vertex_layout_matches_the_wire_contract() {
    let layout = Vertex::create_buffer_layout();
    assert_eq!(layout.array_stride, 24);
    assert_eq!(layout.attributes.len(), 3);
    assert_eq!(layout.attributes[0].offset, 0);
    assert_eq!(layout.attributes[1].offset, 12);
    assert_eq!(layout.attributes[2].offset, 20);
    assert_eq!(layout.attributes[0].shader_location, 0);
    assert_eq!(layout.attributes[1].shader_location, 1);
    assert_eq!(layout.attributes[2].shader_location, 2);
}

#[test]
fn consecutive_submissions_append_after_the_existing_data() {
    let tex = Rc::new(Texture { id: 1, width: 2, height: 2 });
    let mut buffers = Buffers::new();

    let mut first = DrawQueue::new();
    first.push(draw_object(&tex));
    first.submit_draw_queue(&mut buffers, &vec![geometry(0.0)]);
    let first_vertices = buffers.vertex_data.clone();

    let mut second = DrawQueue::new();
    second.push(draw_object(&tex));
    second.submit_draw_queue(&mut buffers, &vec![geometry(50.0)]);

    assert_eq!(buffers.vertex_len, 8);
    assert_eq!(buffers.index_len, 12);
    // the first quad's records are untouched
    assert_eq!(&buffers.vertex_data[0..4], &first_vertices[..]);
    // the second quad's indices are offset by the index cursor it found
    assert_eq!(&buffers.index_data[6..12], &[6, 8, 7, 6, 9, 8]);
}
