use sloth::context::{Context, Pixel, RenderError, SimpleMesh, BoundingBox, Vec3};
use sloth::mat4::{Mat4, FIXED_ONE};

fn mesh(x: i64, y: i64, z: i64) -> SimpleMesh {
    SimpleMesh {
        bounding_box: BoundingBox {
            min: Vec3 { x: 0, y: 0, z: 0 },
            max: Vec3 { x, y, z },
        },
    }
}

#[test]
fn blank_pixel_depth_is_sentinel() {
    let p = Pixel::blank();
    assert_eq!(p.z, i64::MAX);
    assert_eq!(p.shade, 0);
    assert!(p.color.is_none());
    // Farther than any other depth value, however large.
    assert!(p.z > 10_000 * FIXED_ONE);
    assert!(p.z > i64::MAX - 1);
}

#[test]
fn blank_context_is_zero_sized() {
    let c: Context<2> = Context::blank(false, FIXED_ONE);
    assert_eq!(c.width, 0);
    assert_eq!(c.height, 0);
    assert_eq!(c.zoom, FIXED_ONE);
    assert!(!c.image);
    assert_eq!(c.frame_buffer.len(), 0);
    assert_eq!(c.shader_buffer.len(), 0);
    assert_eq!(c.utransform, Mat4::identity());
}

#[test]
fn set_size_stores_without_allocating() {
    let mut c: Context<2> = Context::blank(false, FIXED_ONE);
    c.set_size(7, 3);
    assert_eq!(c.width, 7);
    assert_eq!(c.height, 3);
    assert_eq!(c.frame_buffer.len(), 0);
    assert_eq!(c.shader_buffer.len(), 0);
}

#[test]
fn clear_sizes_buffers_interactive() {
    let mut c: Context<2> = Context::blank(false, FIXED_ONE);
    c.set_size(3, 2);
    c.clear();
    assert_eq!(c.frame_buffer.len(), 6);
    assert_eq!(c.shader_buffer.len(), 6);
    for cell in &c.frame_buffer {
        assert_eq!(cell.0, ' ');
        assert_eq!(cell.1, (0, 0, 0));
    }
    for row in &c.shader_buffer {
        for p in row.iter() {
            assert_eq!(p.z, i64::MAX);
            assert_eq!(p.shade, 0);
            assert!(p.color.is_none());
        }
    }
}

#[test]
fn clear_sizes_buffers_image_mode() {
    let mut c: Context<1> = Context::blank(true, FIXED_ONE);
    c.set_size(3, 2);
    c.clear();
    // One extra line-terminator cell per row in image mode.
    assert_eq!(c.frame_buffer.len(), 3 * 2 + 2);
    assert_eq!(c.shader_buffer.len(), 3 * 2);
}

#[test]
fn clear_on_zero_sized_context_is_a_noop() {
    let mut c: Context<2> = Context::blank(false, FIXED_ONE);
    c.clear();
    assert_eq!(c.frame_buffer.len(), 0);
    assert_eq!(c.shader_buffer.len(), 0);
}

#[test]
fn update_auto_fit_scenario() {
    // Bounding-box max corner (10, 0, 0), output 80x40, zoom 1:
    // scale_basis = 10, scale = min(40, 80/2) * 1 / 10 / 2 = 2.
    let mut c: Context<2> = Context::blank(false, FIXED_ONE);
    let meshes = vec![mesh(10 * FIXED_ONE, 0, 0)];
    let r = c.update((0, 0), (80, 40), &meshes);
    assert_eq!(r, Ok((80, 40)));
    assert_eq!(c.width, 80);
    assert_eq!(c.height, 40);
    let t = c.utransform;
    assert_eq!(t.m00, 2 * FIXED_ONE);
    assert_eq!(t.m11, -2 * FIXED_ONE);
    assert_eq!(t.m22, 2 * FIXED_ONE);
    assert_eq!(t.m03, 20 * FIXED_ONE);
    assert_eq!(t.m13, 20 * FIXED_ONE);
    assert_eq!(t.m23, 0);
    assert_eq!(t.m33, FIXED_ONE);
    // The point (5, 0, 0) lands on cell (30, 20).
    let p = t.transform_point(5 * FIXED_ONE, 0, 0);
    assert_eq!(p.0, 30 * FIXED_ONE);
    assert_eq!(p.1, 20 * FIXED_ONE);
    assert_eq!(p.2, 0);
}

#[test]
fn update_scale_basis_is_max_over_meshes_and_axes() {
    let mut c: Context<2> = Context::blank(false, FIXED_ONE);
    let meshes = vec![
        mesh(2 * FIXED_ONE, 20 * FIXED_ONE, FIXED_ONE),
        mesh(5 * FIXED_ONE, 0, 3 * FIXED_ONE),
    ];
    // Largest extent across everything is 20, so scale = 40 / 20 / 2 = 1.
    let r = c.update((0, 0), (80, 40), &meshes);
    assert_eq!(r, Ok((80, 40)));
    assert_eq!(c.utransform.m00, FIXED_ONE);
}

#[test]
fn update_unchanged_size_is_idempotent_interactive() {
    let mut c: Context<2> = Context::blank(false, FIXED_ONE);
    let meshes = vec![mesh(10 * FIXED_ONE, 0, 0)];
    let first = c.update((0, 0), (80, 40), &meshes);
    assert_eq!(first, Ok((80, 40)));
    let t1 = c.utransform;
    // Same size again: the stored transform stays bit-identical, even
    // with different geometry supplied.
    let second = c.update((80, 40), (80, 40), &vec![mesh(3 * FIXED_ONE, 0, 0)]);
    assert_eq!(second, Ok((80, 40)));
    assert_eq!(c.utransform, t1);
    let third = c.update((80, 40), (80, 40), &meshes);
    assert_eq!(third, Ok((80, 40)));
    assert_eq!(c.utransform, t1);
}

#[test]
fn update_changed_size_recomputes() {
    let mut c: Context<2> = Context::blank(false, FIXED_ONE);
    let meshes = vec![mesh(10 * FIXED_ONE, 0, 0)];
    c.update((0, 0), (80, 40), &meshes).unwrap();
    let t1 = c.utransform;
    let r = c.update((80, 40), (100, 50), &meshes);
    assert_eq!(r, Ok((100, 50)));
    assert_eq!(c.width, 100);
    assert_eq!(c.height, 50);
    assert_ne!(c.utransform, t1);
    // scale = min(50, 100/2) * 1 / 10 / 2 = 2.5
    assert_eq!(c.utransform.m00, 5 * FIXED_ONE / 2);
}

#[test]
fn update_image_mode_always_recomputes() {
    let mut c: Context<2> = Context::blank(true, FIXED_ONE);
    c.set_size(80, 40);
    let meshes = vec![mesh(10 * FIXED_ONE, 0, 0)];
    // Scribble over the transform; an image-mode update recomputes it
    // even though the size did not change and matches old_size.
    let proj = Mat4::identity();
    let view = Mat4::identity();
    c.camera(proj, view);
    c.utransform.m03 = 12345;
    let r = c.update((80, 40), (1, 1), &meshes);
    assert_eq!(r, Ok((80, 40)));
    assert_eq!(c.utransform.m00, 2 * FIXED_ONE);
    assert_eq!(c.utransform.m03, 20 * FIXED_ONE);
    // Image mode keeps its configured dimensions.
    assert_eq!(c.width, 80);
    assert_eq!(c.height, 40);
}

#[test]
fn update_empty_meshes_is_degenerate() {
    let mut c: Context<2> = Context::blank(false, FIXED_ONE);
    let t0 = c.utransform;
    let r = c.update((0, 0), (80, 40), &Vec::new());
    assert_eq!(r, Err(RenderError::DegenerateGeometry));
    // The context is left untouched.
    assert_eq!(c.utransform, t0);
    assert_eq!(c.width, 0);
    assert_eq!(c.height, 0);
}

#[test]
fn update_zero_extent_is_degenerate() {
    let mut c: Context<2> = Context::blank(false, FIXED_ONE);
    let r = c.update((0, 0), (80, 40), &vec![mesh(0, 0, 0)]);
    assert_eq!(r, Err(RenderError::DegenerateGeometry));
    let r2 = c.update((0, 0), (80, 40), &vec![mesh(-FIXED_ONE, -2 * FIXED_ONE, 0)]);
    assert_eq!(r2, Err(RenderError::DegenerateGeometry));
}

#[test]
fn camera_overrides_with_matrix_product() {
    let mut c: Context<2> = Context::blank(false, FIXED_ONE);
    let mut proj = Mat4::identity();
    proj.m00 = 3 * FIXED_ONE;
    let mut view = Mat4::identity();
    view.m03 = 7 * FIXED_ONE;
    let t = c.camera(proj, view);
    assert_eq!(t, c.utransform);
    // Row 0 of proj * view: scale 3 in x, translation 3 * 7 = 21.
    assert_eq!(t.m00, 3 * FIXED_ONE);
    assert_eq!(t.m03, 21 * FIXED_ONE);
    assert_eq!(t.m11, FIXED_ONE);
    assert_eq!(t.m33, FIXED_ONE);
}

#[test]
fn identity_multiply_is_identity() {
    let i = Mat4::identity();
    assert_eq!(i.multiply(&i), i);
    let p = i.transform_point(5 * FIXED_ONE, -3 * FIXED_ONE, FIXED_ONE / 2);
    assert_eq!(p, (5 * FIXED_ONE, -3 * FIXED_ONE, FIXED_ONE / 2));
}
