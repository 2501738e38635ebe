use ascii_cube::double_buffer::DoubleBufferedRenderer;
use ascii_cube::frame_buffer::FrameBuffer;
use ascii_cube::frame_stat::{FrameStats, NANOS_PER_SECOND};
use ascii_cube::math::{calculate_rotation_matrix, SCALE};
use ascii_cube::raster::draw_cube;
use ascii_cube::ring_buffer::{render_tick, RingBufferedRenderer};
use ascii_cube::screen::{CameraSettings, Parameter, ScreenSize};

#[test]
fn ring_render_never_shows_the_write_target() {
    let mut r = RingBufferedRenderer::new(4, 2, 2);
    let target = r.current_buffer();
    target.buffer[0] = 'X';
    // The frame being written is not the one rendered.
    let before = r.render();
    assert!(!before.contains('X'));
    // After an advance, the completed frame becomes visible.
    r.next_buffer();
    let after = r.render();
    assert_eq!(after.chars().next(), Some('X'));
}

#[test]
fn ring_starts_blank() {
    let r = RingBufferedRenderer::new(6, 3, 3);
    assert_eq!(r.render(), " ".repeat(18));
}

#[test]
fn render_tick_without_transform_is_blank() {
    let cam = CameraSettings { distance_from_cam: 100 * SCALE, k1: 40 * SCALE };
    let mut r = RingBufferedRenderer::new(6, 3, 3);
    let s = render_tick(&mut r, &cam, None, 40 * SCALE);
    assert_eq!(s, " ".repeat(18));
}

#[test]
fn render_tick_matches_direct_rasterization() {
    let screen = ScreenSize { width: 100, height: 44 };
    let cam = CameraSettings { distance_from_cam: 100 * SCALE, k1: 40 * SCALE };
    let m = calculate_rotation_matrix(0, SCALE, 0, SCALE, 0, SCALE);

    let mut fb = FrameBuffer::new(100, 44);
    draw_cube(&mut fb, &screen, &cam, &m, 40 * SCALE);
    let direct = fb.render(&screen);

    let mut r = RingBufferedRenderer::new(100, 44, 2);
    let ticked = render_tick(&mut r, &cam, Some(&m), 40 * SCALE);
    assert_eq!(ticked, direct);
}

#[test]
fn render_tick_twice_reuses_buffers() {
    let cam = CameraSettings { distance_from_cam: 100 * SCALE, k1: 40 * SCALE };
    let m = calculate_rotation_matrix(0, SCALE, 0, SCALE, 0, SCALE);
    let mut r = RingBufferedRenderer::new(100, 44, 2);
    let s1 = render_tick(&mut r, &cam, Some(&m), 40 * SCALE);
    let s2 = render_tick(&mut r, &cam, Some(&m), 40 * SCALE);
    assert_eq!(s1, s2);
}

#[test]
fn double_buffer_swap_exchanges_frames() {
    let screen = ScreenSize { width: 3, height: 2 };
    let mut d = DoubleBufferedRenderer::new(3, 2);
    let back = d.back_buffer();
    back.buffer[0] = 'Y';
    // The write target is not rendered before the swap.
    assert_eq!(d.render(), " ".repeat(6));
    d.swap();
    assert_eq!(d.render(), format!("Y{}", " ".repeat(5)));
    assert_eq!(d.screen_size, screen);
}

#[test]
fn frame_stats_fast_frame_is_delayed_to_target() {
    let mut s = FrameStats {
        last_frame_time: 1_000,
        frame_count: 0,
        fps: 0,
        last_fps_update: 1_000,
        target_frame_time: 33_333_333,
    };
    // The frame took 5 ms, well under the target: the reported time is the
    // target itself and the delay makes up the difference.
    let (frame_time, delay) = s.end_frame_at(1_000 + 5_000_000);
    assert_eq!(frame_time, 33_333_333);
    assert_eq!(delay, 33_333_333 - 5_000_000);
    assert!(frame_time >= s.target_frame_time);
    assert_eq!(s.frame_count, 1);
    assert_eq!(s.fps, 0);
}

#[test]
fn frame_stats_slow_frame_is_reported_as_it_ran() {
    let mut s = FrameStats {
        last_frame_time: 1_000,
        frame_count: 3,
        fps: 0,
        last_fps_update: 1_000,
        target_frame_time: 33_333_333,
    };
    let (frame_time, delay) = s.end_frame_at(1_000 + 50_000_000);
    assert_eq!(frame_time, 50_000_000);
    assert_eq!(delay, 0);
    assert_eq!(s.frame_count, 4);
}

#[test]
fn frame_stats_samples_fps_after_one_second() {
    let mut s = FrameStats {
        last_frame_time: 0,
        frame_count: 29,
        fps: 0,
        last_fps_update: 0,
        target_frame_time: 33_333_333,
    };
    let (_, _) = s.end_frame_at(NANOS_PER_SECOND + 5);
    assert_eq!(s.fps, 30);
    assert_eq!(s.frame_count, 0);
    assert_eq!(s.last_fps_update, NANOS_PER_SECOND + 5);
}

#[test]
fn frame_stats_new_sets_target_from_rate() {
    let s = FrameStats::new(30);
    assert_eq!(s.target_frame_time, NANOS_PER_SECOND / 30);
    assert_eq!(s.frame_count, 0);
    assert_eq!(s.fps, 0);
}

#[test]
fn frame_stats_end_frame_never_reports_under_target() {
    let mut s = FrameStats::new(1000);
    s.begin_frame();
    let (frame_time, _) = s.end_frame();
    assert!(frame_time >= s.target_frame_time);
}

#[test]
fn parameter_defaults() {
    let p = Parameter::default();
    assert_eq!(p.target_fps, 30);
    assert_eq!(p.distance_from_cam, 100 * SCALE);
    assert_eq!(p.k1, 40 * SCALE);
    assert_eq!(p.cube_width, 40 * SCALE);
}
