use ray_marcher::rendering::flags::BufferUsages;
use ray_marcher::rendering::geometry::{
    index_buffer, quad_indices, vertex_buffer, BufferInitDescriptor, VertexAttribute, VertexBufferLayout,
    VertexFormat, VertexStepMode, POSITION_LOCATION, QUAD_INDEX_COUNT, QUAD_VERTEX_COUNT, QUAD_VERTEX_STRIDE,
    UV_LOCATION,
};

fn native_bytes(indices: &[u16]) -> Vec<u8> {
    let mut bytes = Vec::new();
    for index in indices {
        bytes.extend_from_slice(&index.to_ne_bytes());
    }
    bytes
}

#[test]
fn quad_has_six_indices_over_four_vertices() {
    let indices = quad_indices();
    assert_eq!(indices, vec![0, 1, 2, 2, 3, 0]);
    assert_eq!(indices.len() as u32, QUAD_INDEX_COUNT);
    assert_eq!(QUAD_INDEX_COUNT, 6);
    assert_eq!(QUAD_VERTEX_COUNT, 4);
}

#[test]
fn quad_indices_name_every_vertex_and_no_other() {
    let indices = quad_indices();
    for vertex in 0..QUAD_VERTEX_COUNT as u16 {
        assert!(indices.contains(&vertex));
    }
    for index in indices {
        assert!((index as u32) < QUAD_VERTEX_COUNT);
    }
}

#[test]
fn quad_is_two_triangles_that_share_an_edge() {
    let indices = quad_indices();
    let first = &indices[0..3];
    let second = &indices[3..6];
    let shared = first.iter().filter(|index| second.contains(index)).count();
    assert_eq!(shared, 2);
    for triangle in [first, second] {
        assert_ne!(triangle[0], triangle[1]);
        assert_ne!(triangle[1], triangle[2]);
        assert_ne!(triangle[0], triangle[2]);
    }
}

#[test]
fn index_buffer_holds_the_quad_in_twelve_bytes() {
    let buffer = index_buffer(&quad_indices());
    assert_eq!(buffer.contents.len(), 12);
    assert_eq!(buffer.contents, native_bytes(&[0, 1, 2, 2, 3, 0]));
    assert_eq!(buffer.usage, BufferUsages { bits: 0x10 });
}

#[test]
fn index_buffer_holds_each_index_in_two_bytes() {
    let indices = [0x0102u16, 0xa0b0, 0x00ff, 0xff00, 0xffff, 0];
    let buffer = index_buffer(&indices);
    assert_eq!(buffer.contents.len(), 2 * indices.len());
    for (i, index) in indices.iter().enumerate() {
        let pair = [buffer.contents[2 * i], buffer.contents[2 * i + 1]];
        assert_eq!(u16::from_ne_bytes(pair), *index);
        assert!(u16::from_le_bytes(pair) == *index || u16::from_be_bytes(pair) == *index);
    }
}

#[test]
fn index_buffer_keeps_one_byte_order_for_all_indices() {
    let indices = [0x0102u16, 0x0304, 0x0506];
    let contents = index_buffer(&indices).contents;
    let low_first = vec![0x02, 0x01, 0x04, 0x03, 0x06, 0x05];
    let high_first = vec![0x01, 0x02, 0x03, 0x04, 0x05, 0x06];
    assert!(contents == low_first || contents == high_first);
    assert_eq!(contents, native_bytes(&indices));
}

#[test]
fn index_buffer_of_no_indices_is_empty() {
    let buffer = index_buffer(&[]);
    assert!(buffer.contents.is_empty());
    assert_eq!(buffer.usage, BufferUsages::index());
}

#[test]
fn index_buffer_of_one_index_has_two_bytes() {
    let buffer = index_buffer(&[0x1234]);
    assert_eq!(buffer.contents, 0x1234u16.to_ne_bytes().to_vec());
}

#[test]
fn vertex_formats_have_their_sizes() {
    assert_eq!(VertexFormat::Float32.size(), 4);
    assert_eq!(VertexFormat::Float32x2.size(), 8);
    assert_eq!(VertexFormat::Float32x3.size(), 12);
    assert_eq!(VertexFormat::Float32x4.size(), 16);
}

#[test]
fn quad_vertices_are_a_position_and_a_texture_coordinate() {
    let layout = VertexBufferLayout::quad();
    assert_eq!(
        layout,
        VertexBufferLayout {
            array_stride: 20,
            step_mode: VertexStepMode::Vertex,
            attributes: vec![
                VertexAttribute { format: VertexFormat::Float32x3, offset: 0, shader_location: 0 },
                VertexAttribute { format: VertexFormat::Float32x2, offset: 12, shader_location: 1 },
            ],
        }
    );
    assert_eq!(QUAD_VERTEX_STRIDE, 20);
    assert_eq!((POSITION_LOCATION, UV_LOCATION), (0, 1));
}

#[test]
fn quad_attributes_fill_the_vertex_without_overlap() {
    let layout = VertexBufferLayout::quad();
    let mut end = 0;
    for attribute in &layout.attributes {
        assert_eq!(attribute.offset, end);
        end = attribute.offset + attribute.format.size();
    }
    assert_eq!(end, layout.array_stride);
}

#[test]
fn vertex_buffer_takes_four_vertices_of_twenty_bytes() {
    let contents: Vec<u8> = (0..80).collect();
    assert_eq!(
        vertex_buffer(contents.clone()),
        Some(BufferInitDescriptor { contents, usage: BufferUsages { bits: 0x20 } })
    );
    assert_eq!(QUAD_VERTEX_COUNT as u64 * QUAD_VERTEX_STRIDE, 80);
}

#[test]
fn vertex_buffer_takes_the_bytes_of_four_corners() {
    let corners: [[f32; 5]; 4] = [
        [-1.0, -1.0, 0.0, 0.0, 1.0],
        [1.0, -1.0, 0.0, 1.0, 1.0],
        [1.0, 1.0, 0.0, 1.0, 0.0],
        [-1.0, 1.0, 0.0, 0.0, 0.0],
    ];
    let contents: Vec<u8> = bytemuck::cast_slice(&corners).to_vec();
    let buffer = vertex_buffer(contents.clone());
    assert_eq!(buffer.map(|made| made.contents), Some(contents));
}

#[test]
fn vertex_buffer_takes_no_other_length() {
    for length in [0, 1, 20, 60, 79, 81, 100, 160] {
        assert_eq!(vertex_buffer(vec![0; length]), None);
    }
}
