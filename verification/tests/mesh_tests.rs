use bismuth::mesh::{Mesh, MeshInstance};
use bismuth::transform::{Mat4Bits, F32_ONE_BITS};
use bismuth::vertex::{assemble_vertices, Vertex};

fn quad_vertices() -> Vec<Vertex> {
    let p = |x: f32, y: f32| [x.to_bits(), y.to_bits(), 0.0f32.to_bits()];
    let white = [F32_ONE_BITS; 3];
    vec![
        Vertex { position: p(0.0, 0.0), color: white, uv: [0, 0] },
        Vertex { position: p(1.0, 0.0), color: white, uv: [0, 0] },
        Vertex { position: p(1.0, 1.0), color: white, uv: [0, 0] },
        Vertex { position: p(0.0, 1.0), color: white, uv: [0, 0] },
    ]
}

#[test]
fn empty_mesh_reports_zero_indices() {
    let mesh = Mesh::new(Vec::new(), Vec::new());
    assert_eq!(mesh.index_count(), 0);
    assert!(mesh.vertex_bytes().is_empty());
    assert!(mesh.index_bytes().is_empty());
}

#[test]
fn triangle_mesh_reports_three_indices() {
    let mesh = Mesh::new(quad_vertices(), vec![0, 1, 2]);
    assert_eq!(mesh.index_count(), 3);
}

#[test]
fn large_mesh_reports_three_million_indices() {
    let indices: Vec<u32> = (0..3_000_000u32).collect();
    let mesh = Mesh::new(Vec::new(), indices);
    assert_eq!(mesh.index_count(), 3_000_000);
}

#[test]
fn vertex_bytes_are_32_per_vertex_little_endian() {
    let v = Vertex {
        position: [0x0102_0304, 0x1112_1314, 0x2122_2324],
        color: [0x3132_3334, 0x4142_4344, 0x5152_5354],
        uv: [0x6162_6364, 0x7172_7374],
    };
    let mesh = Mesh::new(vec![v], vec![0]);
    let bytes = mesh.vertex_bytes();
    assert_eq!(bytes.len(), 32);
    assert_eq!(&bytes[0..4], &[0x04, 0x03, 0x02, 0x01]);
    assert_eq!(&bytes[12..16], &[0x34, 0x33, 0x32, 0x31]);
    assert_eq!(&bytes[24..28], &[0x64, 0x63, 0x62, 0x61]);
    assert_eq!(&bytes[28..32], &[0x74, 0x73, 0x72, 0x71]);
}

#[test]
fn index_bytes_are_four_per_index_little_endian() {
    let mesh = Mesh::new(Vec::new(), vec![1, 0x00FF_00AB]);
    let bytes = mesh.index_bytes();
    assert_eq!(bytes, vec![1, 0, 0, 0, 0xAB, 0x00, 0xFF, 0x00]);
}

#[test]
fn assembled_vertices_take_streams_in_order() {
    let positions = vec![[1, 2, 3], [4, 5, 6]];
    let colors = vec![[7, 8, 9], [10, 11, 12]];
    let uvs = vec![[13, 14], [15, 16]];
    let vertices = assemble_vertices(positions, colors, uvs);
    assert_eq!(vertices.len(), 2);
    assert_eq!(vertices[1].position, [4, 5, 6]);
    assert_eq!(vertices[1].color, [10, 11, 12]);
    assert_eq!(vertices[1].uv, [15, 16]);
}

#[test]
fn missing_streams_default_to_white_and_zero_uv() {
    let positions = vec![[1, 2, 3], [4, 5, 6]];
    let vertices = assemble_vertices(positions, Vec::new(), Vec::new());
    assert_eq!(vertices.len(), 2);
    for v in &vertices {
        assert_eq!(v.color, [F32_ONE_BITS; 3]);
        assert_eq!(v.color, [1.0f32.to_bits(); 3]);
        assert_eq!(v.uv, [0, 0]);
    }
}

#[test]
fn short_color_stream_pads_with_white() {
    let positions = vec![[1, 2, 3], [4, 5, 6]];
    let colors = vec![[7, 8, 9]];
    let vertices = assemble_vertices(positions, colors, Vec::new());
    assert_eq!(vertices[0].color, [7, 8, 9]);
    assert_eq!(vertices[1].color, [F32_ONE_BITS; 3]);
}

#[test]
fn fresh_instance_is_clean() {
    let m = Mat4Bits::identity();
    let inst = MeshInstance::new(3, &m);
    assert_eq!(inst.mesh, 3);
    assert_eq!(inst.transform, m);
    assert_eq!(inst.uploaded, m);
    assert!(!inst.dirty);
}

#[test]
fn set_transform_marks_the_gpu_copy_stale() {
    let mut inst = MeshInstance::new(0, &Mat4Bits::identity());
    let m = Mat4Bits::zeroed();
    inst.set_transform(&m);
    assert_eq!(inst.transform, m);
    assert_eq!(inst.uploaded, Mat4Bits::identity());
    assert!(inst.dirty);
}
