use bismuth::renderer::Renderer;
use bismuth::surface::{SurfaceCaps, SurfaceError, SurfaceFormat};
use bismuth::transform::Mat4Bits;
use bismuth::vertex::Vertex;

fn caps_800x600() -> SurfaceCaps {
    SurfaceCaps {
        formats: vec![
            SurfaceFormat { id: 10, srgb: false },
            SurfaceFormat { id: 11, srgb: true },
        ],
        present_modes: vec![2, 0],
        alpha_modes: vec![1],
    }
}

fn test_renderer() -> Renderer {
    Renderer::new(&caps_800x600(), 800, 600)
}

fn quad() -> (Vec<Vertex>, Vec<u32>) {
    let p = |x: f32, y: f32| [x.to_bits(), y.to_bits(), 0.0f32.to_bits()];
    let white = [1.0f32.to_bits(); 3];
    let vertices = vec![
        Vertex { position: p(-1.0, -1.0), color: white, uv: [0, 0] },
        Vertex { position: p(1.0, -1.0), color: white, uv: [0x3f80_0000, 0] },
        Vertex { position: p(1.0, 1.0), color: white, uv: [0x3f80_0000, 0x3f80_0000] },
        Vertex { position: p(-1.0, 1.0), color: white, uv: [0, 0x3f80_0000] },
    ];
    (vertices, vec![0, 1, 2, 0, 2, 3])
}

/// A plausible view-projection matrix for `eye=(1,1,1)`, `target=(0,0,0)`,
/// `up=(0,1,0)`, `fovy=75`, `znear=0.1`, `zfar=100`, as bit patterns. The
/// renderer stores and uploads it without looking inside.
fn camera_matrix() -> Mat4Bits {
    let values: [f32; 16] = [
        0.91, 0.0, -0.91, 0.0, -0.53, 1.05, -0.53, 0.0, -0.58, -0.58, -0.58, -1.0, 0.0, 0.0, 1.63,
        1.73,
    ];
    let mut entries = [0u32; 16];
    for (e, v) in entries.iter_mut().zip(values.iter()) {
        *e = v.to_bits();
    }
    Mat4Bits { entries }
}

#[test]
fn new_renderer_prefers_the_srgb_format() {
    let r = test_renderer();
    assert_eq!(r.config.format, SurfaceFormat { id: 11, srgb: true });
    assert_eq!(r.config.present_mode, 2);
    assert_eq!(r.config.alpha_mode, 1);
    assert_eq!((r.config.width, r.config.height), (800, 600));
    assert_eq!((r.depth_texture.width, r.depth_texture.height), (800, 600));
    assert!(r.uniform.entries.iter().all(|&e| e == 0));
    assert!(r.meshes.is_empty());
    assert!(r.instances.is_empty());
}

#[test]
fn resize_to_zero_width_is_a_no_op() {
    let mut r = test_renderer();
    r.resize_surface(0, 480);
    assert_eq!((r.config.width, r.config.height), (800, 600));
    assert_eq!((r.depth_texture.width, r.depth_texture.height), (800, 600));
}

#[test]
fn resize_to_zero_height_is_a_no_op() {
    let mut r = test_renderer();
    r.resize_surface(640, 0);
    assert_eq!((r.config.width, r.config.height), (800, 600));
    assert_eq!((r.depth_texture.width, r.depth_texture.height), (800, 600));
}

#[test]
fn resize_updates_config_and_depth_texture_exactly() {
    let mut r = test_renderer();
    r.resize_surface(1024, 768);
    assert_eq!((r.config.width, r.config.height), (1024, 768));
    assert_eq!((r.depth_texture.width, r.depth_texture.height), (1024, 768));
    assert_eq!(r.config.format, SurfaceFormat { id: 11, srgb: true });
    assert_eq!(r.get_size(), (1024, 768));
}

#[test]
fn create_mesh_registers_mesh_and_instance() {
    let mut r = test_renderer();
    let (vertices, indices) = quad();
    r.create_mesh(vertices, indices, &Mat4Bits::identity());
    assert_eq!(r.meshes.len(), 1);
    assert_eq!(r.instances.len(), 1);
    assert_eq!(r.meshes[0].index_count(), 6);
    assert_eq!(r.instances[0].mesh, 0);
    assert_eq!(r.instances[0].transform, Mat4Bits::identity());
    assert!(!r.instances[0].dirty);
}

#[test]
fn instances_of_one_mesh_share_its_buffers() {
    let mut r = test_renderer();
    let (vertices, indices) = quad();
    r.create_mesh(vertices, indices, &Mat4Bits::identity());
    let second = r.add_instance(0, &Mat4Bits::identity());
    assert_eq!(second, 1);
    assert_eq!(r.meshes.len(), 1, "no second copy of the mesh is made");
    assert_eq!(r.instances[0].mesh, r.instances[1].mesh);

    // Mutating one instance's transform affects neither the other's
    // transform nor either one's draw range.
    let moved = camera_matrix();
    r.set_transform(1, &moved);
    assert_eq!(r.instances[0].transform, Mat4Bits::identity());
    assert_eq!(r.instances[1].transform, moved);
    let plan = r.render(None, Ok(())).unwrap();
    assert_eq!(plan.draws.len(), 2);
    assert_eq!(plan.draws[0].mesh, plan.draws[1].mesh);
    assert_eq!(plan.draws[0].index_count, 6);
    assert_eq!(plan.draws[1].index_count, 6);
    assert!(plan.draws[0].transform_upload.is_none());
    assert_eq!(plan.draws[1].transform_upload, Some(moved));
}

#[test]
fn render_without_camera_keeps_the_uniform() {
    let mut r = test_renderer();
    let m = camera_matrix();
    let plan = r.render(Some(&m), Ok(())).unwrap();
    assert_eq!(plan.uniform_write, Some(m));
    assert_eq!(r.uniform, m);

    let plan = r.render(None, Ok(())).unwrap();
    assert_eq!(plan.uniform_write, None);
    assert_eq!(r.uniform, m, "a camera-less frame reuses the last projection");
}

#[test]
fn update_uniform_buffer_overwrites_wholesale() {
    let mut r = test_renderer();
    let m = camera_matrix();
    r.update_uniform_buffer(&m);
    assert_eq!(r.uniform, m);
    r.update_uniform_buffer(&Mat4Bits::identity());
    assert_eq!(r.uniform, Mat4Bits::identity());
}

#[test]
fn render_hands_surface_errors_back() {
    let mut r = test_renderer();
    let m = camera_matrix();
    let result = r.render(Some(&m), Err(SurfaceError::Outdated));
    assert_eq!(result.unwrap_err(), SurfaceError::Outdated);
    assert_eq!(r.uniform, m, "the uniform was rewritten before the acquire failed");
}

#[test]
fn transform_refresh_happens_once() {
    let mut r = test_renderer();
    let (vertices, indices) = quad();
    r.create_mesh(vertices, indices, &Mat4Bits::identity());
    let moved = camera_matrix();
    r.set_transform(0, &moved);
    assert!(r.instances[0].dirty);

    let plan = r.render(None, Ok(())).unwrap();
    assert_eq!(plan.draws[0].transform_upload, Some(moved));
    assert!(!r.instances[0].dirty);
    assert_eq!(r.instances[0].uploaded, moved);

    let plan = r.render(None, Ok(())).unwrap();
    assert!(plan.draws[0].transform_upload.is_none(), "the GPU copy is already fresh");
}

#[test]
fn quad_frame_draws_once_with_six_indices() {
    // End to end: an 800x600 surface, one quad at the identity transform,
    // one frame with a camera.
    let mut r = test_renderer();
    let (vertices, indices) = quad();
    r.create_mesh(vertices, indices, &Mat4Bits::identity());
    let m = camera_matrix();
    let result = r.render(Some(&m), Ok(()));
    let plan = result.expect("the frame must succeed");
    assert_eq!(plan.uniform_write, Some(m));
    assert_eq!(plan.draws.len(), 1, "exactly one indexed draw is recorded");
    assert_eq!(plan.draws[0].index_count, 6);
    assert_eq!(plan.draws[0].instance_count, 1);
    assert_eq!(plan.draws[0].mesh, 0);
    assert_eq!(plan.draws[0].instance, 0);
}

#[test]
fn render_after_zero_resize_uses_the_old_configuration() {
    // End to end: a minimized window must not corrupt the frame that
    // follows.
    let mut r = test_renderer();
    let (vertices, indices) = quad();
    r.create_mesh(vertices, indices, &Mat4Bits::identity());
    r.resize_surface(0, 0);
    assert_eq!((r.config.width, r.config.height), (800, 600));
    let result = r.render(Some(&camera_matrix()), Ok(()));
    let plan = result.expect("the frame still renders at the previous size");
    assert_eq!(plan.draws.len(), 1);
    assert_eq!(
        (r.depth_texture.width, r.depth_texture.height),
        (800, 600),
        "color and depth attachments still agree"
    );
}
