use ascii_cube::frame_buffer::FrameBuffer;
use ascii_cube::math::{calculate_rotation_matrix, mat_mul, Mat3, SCALE};
use ascii_cube::projector::project;
use ascii_cube::raster::{calculate_for_point, draw_cube};
use ascii_cube::screen::{CameraSettings, ScreenSize};

fn identity() -> Mat3 {
    Mat3 {
        m00: SCALE,
        m01: 0,
        m02: 0,
        m10: 0,
        m11: SCALE,
        m12: 0,
        m20: 0,
        m21: 0,
        m22: SCALE,
    }
}

#[test]
fn rotation_zero_angles_gives_identity() {
    let m = calculate_rotation_matrix(0, SCALE, 0, SCALE, 0, SCALE);
    assert_eq!(m, identity());
}

#[test]
fn rotation_composition_order_is_rz_ry_rx() {
    // sin/cos of roughly 30, 40 and 60 degrees, in fixed point.
    let (sa, ca) = (32768, 56756);
    let (sb, cb) = (42127, 50199);
    let (sc, cc) = (56756, 32768);

    let only_a = calculate_rotation_matrix(sa, ca, 0, SCALE, 0, SCALE);
    let only_b = calculate_rotation_matrix(0, SCALE, sb, cb, 0, SCALE);
    let only_c = calculate_rotation_matrix(0, SCALE, 0, SCALE, sc, cc);
    let combined = calculate_rotation_matrix(sa, ca, sb, cb, sc, cc);

    // Applying a, then b, then c composes as Rz * Ry * Rx.
    let composed = mat_mul(&only_c, &mat_mul(&only_b, &only_a));
    assert_eq!(composed, combined);

    // The opposite composition order is a different transform.
    let reversed = mat_mul(&only_a, &mat_mul(&only_b, &only_c));
    assert_ne!(reversed, combined);
}

#[test]
fn projection_depth_key_is_exact_reciprocal() {
    let screen = ScreenSize { width: 100, height: 44 };
    let cam = CameraSettings { distance_from_cam: 2 * SCALE, k1: 40 * SCALE };
    // A point on the camera axis, two world units away: the depth key is
    // exactly SCALE / 2 and the cell is the screen center.
    let r = project(0, 0, 0, &cam, &screen);
    assert_eq!(r, Some((50, 22, 32768)));
}

#[test]
fn projection_out_of_bounds_is_dropped() {
    let screen = ScreenSize { width: 100, height: 44 };
    let cam = CameraSettings { distance_from_cam: 2 * SCALE, k1: 40 * SCALE };
    let r = project(0x1000_0000, 0, 0, &cam, &screen);
    assert_eq!(r, None);
}

#[test]
fn projection_behind_camera_is_dropped() {
    let screen = ScreenSize { width: 100, height: 44 };
    let cam = CameraSettings { distance_from_cam: 2 * SCALE, k1: 40 * SCALE };
    let r = project(0, 0, -3 * SCALE, &cam, &screen);
    assert_eq!(r, None);
}

#[test]
fn depth_resolution_keeps_nearest_in_any_order() {
    let screen = ScreenSize { width: 10, height: 10 };
    let cam = CameraSettings { distance_from_cam: 2 * SCALE, k1: 40 * SCALE };
    let m = identity();
    let idx = 5 * 10 + 5;

    // Both points sit on the camera axis and land on the center cell; the
    // one at z = -SCALE is nearer (depth key SCALE) than the one at z = 0
    // (depth key SCALE / 2).
    let mut near_last = FrameBuffer::new(10, 10);
    calculate_for_point(0, 0, 0, 'F', &mut near_last, &screen, &cam, &m);
    calculate_for_point(0, 0, -SCALE, 'N', &mut near_last, &screen, &cam, &m);

    let mut near_first = FrameBuffer::new(10, 10);
    calculate_for_point(0, 0, -SCALE, 'N', &mut near_first, &screen, &cam, &m);
    calculate_for_point(0, 0, 0, 'F', &mut near_first, &screen, &cam, &m);

    assert_eq!(near_last.buffer[idx], 'N');
    assert_eq!(near_first.buffer[idx], 'N');
    assert_eq!(near_last.z_buffer[idx], SCALE);
    assert_eq!(near_first.z_buffer[idx], SCALE);
    assert_eq!(near_last.buffer, near_first.buffer);
    assert_eq!(near_last.z_buffer, near_first.z_buffer);
}

#[test]
fn clear_then_render_is_all_background() {
    let screen = ScreenSize { width: 5, height: 3 };
    let cam = CameraSettings { distance_from_cam: 2 * SCALE, k1: 40 * SCALE };
    let m = identity();
    let mut fb = FrameBuffer::new(5, 3);
    calculate_for_point(0, 0, 0, '#', &mut fb, &screen, &cam, &m);
    fb.clear('.');
    let s = fb.render(&screen);
    assert_eq!(s, ".".repeat(15));
    assert!(fb.z_buffer.iter().all(|&z| z == 0));
}

#[test]
fn new_frame_buffer_is_blank() {
    let screen = ScreenSize { width: 7, height: 2 };
    let fb = FrameBuffer::new(7, 2);
    assert_eq!(fb.buffer.len(), 14);
    assert_eq!(fb.z_buffer.len(), 14);
    assert_eq!(fb.render(&screen), " ".repeat(14));
}

#[test]
fn cube_rasterization_is_deterministic_front_face() {
    let screen = ScreenSize { width: 100, height: 44 };
    let cam = CameraSettings { distance_from_cam: 100 * SCALE, k1: 40 * SCALE };
    let m = identity();

    let mut first = FrameBuffer::new(100, 44);
    draw_cube(&mut first, &screen, &cam, &m, 40 * SCALE);
    let mut second = FrameBuffer::new(100, 44);
    draw_cube(&mut second, &screen, &cam, &m, 40 * SCALE);

    // Bit-for-bit reproducible across runs on identical inputs.
    assert_eq!(first.buffer, second.buffer);
    assert_eq!(first.z_buffer, second.z_buffer);

    // With zero angles the front face fills a symmetric region around the
    // screen center; side faces survive only at edge cells where they
    // arrive first at an equal depth key.
    assert_eq!(first.buffer[22 * 100 + 50], '@');
    assert_eq!(first.buffer[12 * 100 + 30], '@');
    assert_eq!(first.buffer[31 * 100 + 69], '$');
    assert_eq!(first.buffer[12 * 100 + 29], ' ');
    let mut glyphs: Vec<char> = first.buffer.iter().copied().filter(|&c| c != ' ').collect();
    glyphs.sort();
    glyphs.dedup();
    assert!(glyphs.contains(&'@'));
    assert!(glyphs.contains(&'$'));
    for g in &glyphs {
        assert!(['@', '$', '~', '#', ';', '+'].contains(g));
    }
    for x in 0..100 {
        assert_eq!(first.buffer[11 * 100 + x], ' ');
        assert_eq!(first.buffer[32 * 100 + x], ' ');
    }
}

#[test]
fn cube_rasterization_rotated_shows_several_faces() {
    let screen = ScreenSize { width: 100, height: 44 };
    let cam = CameraSettings { distance_from_cam: 100 * SCALE, k1: 40 * SCALE };
    // sin/cos of roughly 0.5, 0.5 and 0.1 radians, in fixed point.
    let m = calculate_rotation_matrix(31424, 57516, 31424, 57516, 6542, 65208);

    let mut first = FrameBuffer::new(100, 44);
    draw_cube(&mut first, &screen, &cam, &m, 40 * SCALE);
    let mut second = FrameBuffer::new(100, 44);
    draw_cube(&mut second, &screen, &cam, &m, 40 * SCALE);
    assert_eq!(first.buffer, second.buffer);

    let mut glyphs: Vec<char> = first.buffer.iter().copied().filter(|&c| c != ' ').collect();
    glyphs.sort();
    glyphs.dedup();
    assert!(glyphs.len() >= 2, "expected several visible faces, saw {:?}", glyphs);
    for g in &glyphs {
        assert!(['@', '$', '~', '#', ';', '+'].contains(g));
    }
}
