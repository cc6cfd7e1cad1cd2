use mercurian::mesh::{
    add_unique_vertex, circle_geometry, dedup_vertices, find_vertex, mesh_from_obj, mirror_fan_indices,
    MeshError, ObjMesh, ONE_BITS,
};
use mercurian::upload::{
    bytes_to_words, index_bytes, vertex_bytes, vertices_to_words, words_to_bytes, words_to_vertices,
};
use mercurian::vertex::{AttributeFormat, InputRate, Vec2, Vec3, Vertex, VERTEX_SIZE};

fn v3(x: f32, y: f32, z: f32) -> Vec3 {
    Vec3 { x: x.to_bits(), y: y.to_bits(), z: z.to_bits() }
}

fn v2(x: f32, y: f32) -> Vec2 {
    Vec2 { x: x.to_bits(), y: y.to_bits() }
}

fn vertex(x: f32, y: f32, u: f32, v: f32) -> Vertex {
    Vertex::new(v3(x, y, 0.0), v3(1.0, 1.0, 1.0), v2(u, v))
}

#[test]
fn dedup_keeps_first_occurrences_and_one_index_per_corner() {
    let a = vertex(0.0, 0.0, 0.0, 0.0);
    let b = vertex(1.0, 0.0, 1.0, 0.0);
    let c = vertex(0.0, 1.0, 0.0, 1.0);
    let corners = vec![a, b, c, c, b, a, b];
    let (vertices, indices) = dedup_vertices(&corners);
    assert_eq!(vertices, vec![a, b, c]);
    assert_eq!(indices, vec![0, 1, 2, 2, 1, 0, 1]);
    assert_eq!(indices.len(), corners.len());
    for i in 0..vertices.len() {
        for j in (i + 1)..vertices.len() {
            assert_ne!(vertices[i], vertices[j]);
        }
    }
    for (k, corner) in corners.iter().enumerate() {
        assert_eq!(vertices[indices[k] as usize], *corner);
    }
}

#[test]
fn dedup_of_empty_corner_list_is_empty() {
    let (vertices, indices) = dedup_vertices(&vec![]);
    assert!(vertices.is_empty());
    assert!(indices.is_empty());
}

#[test]
fn dedup_compares_bit_patterns_not_values() {
    // 0.0 and -0.0 compare equal as floats but differ bit-wise.
    let plus = vertex(0.0, 0.0, 0.0, 0.0);
    let minus = vertex(-0.0, 0.0, 0.0, 0.0);
    let (vertices, indices) = dedup_vertices(&vec![plus, minus, plus]);
    assert_eq!(vertices.len(), 2);
    assert_eq!(indices, vec![0, 1, 0]);
}

#[test]
fn add_unique_vertex_appends_only_new_vertices() {
    let a = vertex(0.0, 0.0, 0.0, 0.0);
    let b = vertex(2.0, 0.0, 0.0, 0.0);
    let mut vertices = vec![a];
    let mut indices = vec![0];
    add_unique_vertex(&mut vertices, &mut indices, b);
    add_unique_vertex(&mut vertices, &mut indices, a);
    assert_eq!(vertices, vec![a, b]);
    assert_eq!(indices, vec![0, 1, 0]);
    assert_eq!(find_vertex(&vertices, &b), Some(1));
    assert_eq!(find_vertex(&vertices, &vertex(5.0, 5.0, 5.0, 5.0)), None);
}

#[test]
fn obj_meshes_share_deduplicated_vertices() {
    let positions: Vec<u32> = [0.0f32, 0.0, 0.0, 1.0, 0.0, 0.0, 0.0, 1.0, 0.0].iter().map(|f| f.to_bits()).collect();
    let texcoords: Vec<u32> = [0.0f32, 1.0, 1.0, 1.0, 0.0, 0.0].iter().map(|f| f.to_bits()).collect();
    let first = ObjMesh { positions: positions.clone(), texcoords: texcoords.clone(), indices: vec![0, 1, 2] };
    let second = ObjMesh { positions, texcoords, indices: vec![2, 1, 0, 0] };
    let (vertices, indices) = mesh_from_obj(&vec![first, second]).unwrap();
    assert_eq!(vertices.len(), 3);
    assert_eq!(indices, vec![0, 1, 2, 2, 1, 0, 0]);
    let white = Vec3 { x: ONE_BITS, y: ONE_BITS, z: ONE_BITS };
    assert_eq!(vertices[1], Vertex::new(v3(1.0, 0.0, 0.0), white, v2(1.0, 1.0)));
    assert_eq!(ONE_BITS, 1.0f32.to_bits());
}

#[test]
fn obj_index_out_of_range_is_rejected() {
    let mesh = ObjMesh {
        positions: vec![0, 0, 0],
        texcoords: vec![0, 0],
        indices: vec![0, 1],
    };
    assert_eq!(mesh_from_obj(&vec![mesh]).unwrap_err(), MeshError::IndexOutOfRange);
}

#[test]
fn mirror_appends_reversed_triples_through_center() {
    let mut indices = vec![1, 0, 2, 2, 0, 3];
    mirror_fan_indices(&mut indices);
    assert_eq!(
        indices,
        vec![1, 0, 2, 2, 0, 3, 2, 0, 1, 2, 0, 0, 0, 0, 2, 3, 0, 2, 2, 0, 0, 0, 0, 3]
    );
}

#[test]
fn circle_with_three_edges_has_center_and_three_rim_vertices() {
    let center = vertex(0.0, 0.0, 0.5, 0.5);
    let rim_a = vertex(1.0, 0.0, 1.0, 0.5);
    let rim_b = vertex(-0.5, 0.8, 0.25, 0.1);
    let rim_c = vertex(-0.5, -0.8, 0.25, 0.9);
    let rim = vec![rim_a, rim_b, rim_c, rim_a];
    let (vertices, indices) = circle_geometry(center, &rim);
    assert_eq!(vertices, vec![center, rim_a, rim_b, rim_c]);
    assert_eq!(indices.len(), 36);
    assert_eq!(&indices[..9], &[1, 0, 2, 2, 0, 3, 3, 0, 1]);
    assert_eq!(&indices[9..12], &[2, 0, 1]);
}

#[test]
fn circle_with_no_edge_is_its_center() {
    let center = vertex(0.0, 0.0, 0.5, 0.5);
    let (vertices, indices) = circle_geometry(center, &vec![vertex(1.0, 0.0, 1.0, 0.5)]);
    assert_eq!(vertices, vec![center]);
    assert!(indices.is_empty());
}

#[test]
fn vertex_layout_matches_buffer_records() {
    let binding = Vertex::binding_description();
    assert_eq!(binding.binding, 0);
    assert_eq!(binding.stride, 32);
    assert_eq!(binding.input_rate, InputRate::Vertex);
    assert_eq!(VERTEX_SIZE as usize, 8 * std::mem::size_of::<f32>());
    let attributes = Vertex::attribute_descriptions();
    assert_eq!(attributes[0].offset, 0);
    assert_eq!(attributes[1].offset, 12);
    assert_eq!(attributes[2].offset, 24);
    assert_eq!(attributes[2].format, AttributeFormat::R32G32Sfloat);
    assert_eq!(attributes[1].location, 1);
}

#[test]
fn vertex_setters_change_one_component() {
    let mut v = vertex(1.0, 2.0, 3.0, 4.0);
    v.set_tex_coord(v2(0.0, 0.0));
    assert_eq!(v.tex_coord(), v2(0.0, 0.0));
    assert_eq!(v.pos(), v3(1.0, 2.0, 0.0));
    v.set_color(v3(0.5, 0.5, 0.5));
    v.set_pos(v3(9.0, 9.0, 9.0));
    assert_eq!(v.color(), v3(0.5, 0.5, 0.5));
    assert_eq!(v.pos(), v3(9.0, 9.0, 9.0));
}

#[test]
fn staging_bytes_round_trip() {
    let vertices = vec![vertex(0.25, -1.0, 0.5, 0.75), vertex(3.0, 4.0, 0.0, 1.0)];
    let bytes = vertex_bytes(&vertices);
    assert_eq!(bytes.len(), 64);
    assert_eq!(&bytes[0..4], &0.25f32.to_le_bytes());
    assert_eq!(words_to_vertices(&bytes_to_words(&bytes)), vertices);
    let indices = vec![0u32, 1, 2, 0x0102_0304];
    let ibytes = index_bytes(&indices);
    assert_eq!(&ibytes[12..16], &[4, 3, 2, 1]);
    assert_eq!(bytes_to_words(&ibytes), indices);
    assert_eq!(words_to_bytes(&vec![0xdead_beef]), vec![0xef, 0xbe, 0xad, 0xde]);
    assert_eq!(vertices_to_words(&vertices).len(), 16);
}
