use raytracer::renderer::{workgroup_count, Renderer, CAMERA_BUFFER_SIZE, WORKGROUP_SIZE};

#[test]
fn workgroup_count_exact_multiple() {
    assert_eq!(workgroup_count(1920, 10), 192);
    assert_eq!(workgroup_count(800, 10), 80);
    assert_eq!(workgroup_count(600, 10), 60);
}

#[test]
fn workgroup_count_rounds_up() {
    assert_eq!(workgroup_count(1925, 10), 193);
    assert_eq!(workgroup_count(1, 10), 1);
    assert_eq!(workgroup_count(9, 10), 1);
    assert_eq!(workgroup_count(11, 10), 2);
}

#[test]
fn workgroup_count_zero_pixels() {
    assert_eq!(workgroup_count(0, 10), 0);
}

#[test]
fn first_render_returns_one_then_counts_to_ten() {
    let mut r = Renderer::new(800, 600);
    let frame = r.render(0);
    assert_eq!(frame.sample_count, 1);
    let mut last = frame.sample_count;
    for _ in 0..9 {
        last = r.render(0).sample_count;
    }
    assert_eq!(last, 10);
}

#[test]
fn render_covers_drawable_area() {
    let mut r = Renderer::new(800, 600);
    let frame = r.render(0);
    assert_eq!(frame.workgroups_x, 80);
    assert_eq!(frame.workgroups_y, 60);
    assert_eq!(WORKGROUP_SIZE, 10);
}

#[test]
fn render_edge_tiles_not_dropped() {
    let mut r = Renderer::new(1925, 1083);
    let frame = r.render(0);
    assert_eq!(frame.workgroups_x, 193);
    assert_eq!(frame.workgroups_y, 109);
}

#[test]
fn update_camera_resets_sample_count() {
    let mut r = Renderer::new(800, 600);
    for _ in 0..10 {
        r.render(0);
    }
    assert_eq!(r.samples(), 10);
    let identity = [0u32; 16];
    r.update_camera(&identity, &identity);
    assert_eq!(r.samples(), 0);
    let frame = r.render(0);
    assert_eq!(frame.sample_count, 1);
}

#[test]
fn resize_keeps_accumulation_and_resizes_grid() {
    let mut r = Renderer::new(800, 600);
    let first = r.render(0);
    assert_eq!(first.sample_count, 1);
    r.resize(1280, 720);
    assert_eq!(r.width(), 1280);
    assert_eq!(r.height(), 720);
    let frame = r.render(0);
    assert_eq!(frame.sample_count, 2);
    assert_eq!(frame.workgroups_x, 128);
    assert_eq!(frame.workgroups_y, 72);
}

#[test]
fn push_constants_carry_time_and_pre_frame_count() {
    let mut r = Renderer::new(800, 600);
    let time_bits: u32 = 0x3F80_0000;
    let frame = r.render(time_bits);
    assert_eq!(frame.push_constants.len(), 8);
    assert_eq!(&frame.push_constants[0..4], &time_bits.to_le_bytes());
    assert_eq!(&frame.push_constants[4..8], &0u32.to_le_bytes());
    let frame2 = r.render(time_bits);
    assert_eq!(&frame2.push_constants[4..8], &1u32.to_le_bytes());
}

#[test]
fn camera_uniform_layout_projection_then_view() {
    let mut r = Renderer::new(800, 600);
    let mut view = [0u32; 16];
    let mut proj = [0u32; 16];
    for i in 0..16 {
        view[i] = 0x1000 + i as u32;
        proj[i] = 0x2000 + i as u32;
    }
    let uniform = r.update_camera(&view, &proj);
    assert_eq!(uniform.len(), CAMERA_BUFFER_SIZE);
    for i in 0..16 {
        assert_eq!(&uniform[4 * i..4 * i + 4], &proj[i].to_le_bytes());
        assert_eq!(&uniform[64 + 4 * i..64 + 4 * i + 4], &view[i].to_le_bytes());
    }
}

#[test]
fn camera_uniform_matches_real_inverse_matrices() {
    // The host inverts its matrices with its linear-algebra library and
    // hands the raw scalar bit patterns in; the uniform must carry those
    // exact bits.
    let mut r = Renderer::new(800, 600);
    let view = glam::camera::lh::view::look_at_mat4(
        glam::Vec3::new(0.0, 1.0, -3.0),
        glam::Vec3::ZERO,
        glam::Vec3::new(0.0, 1.0, 0.0),
    );
    let proj = glam::camera::lh::proj::directx::perspective(
        90.0f32.to_radians(),
        4.0 / 3.0,
        0.1,
        100.0,
    );
    let inv_view_bits = view.inverse().to_cols_array().map(f32::to_bits);
    let inv_proj_bits = proj.inverse().to_cols_array().map(f32::to_bits);
    let uniform = r.update_camera(&inv_view_bits, &inv_proj_bits);
    for i in 0..16 {
        assert_eq!(&uniform[4 * i..4 * i + 4], &inv_proj_bits[i].to_le_bytes());
        assert_eq!(&uniform[64 + 4 * i..64 + 4 * i + 4], &inv_view_bits[i].to_le_bytes());
    }
    assert_eq!(r.samples(), 0);
}
