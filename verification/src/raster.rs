//! The cube sampler and rasterizer.
//!
//! The cube is sampled as six parametrized surfaces swept over a 2D grid of
//! fixed step, one glyph per face. Each sample point is rotated, projected,
//! and written into the frame buffer only where its depth key is strictly
//! greater (nearer) than the one already stored: a painter's algorithm via
//! z-buffer, independent of draw order.

use vstd::prelude::*;
use vstd::pervasive::VecAdditionalExecFns;
use crate::frame_buffer::FrameBuffer;
use crate::math::{mat_bounded, rotate_spec, rotate_point, Mat3, Mat3View, MAT_MAX, POINT_MAX};
use crate::projector::{project, project_spec};
use crate::screen::{CameraSettings, ScreenSize, CUBE_WIDTH_MAX};

verus! {

/// The sampling step of the parameter grid: 0.15 world units, in
/// fixed-point representation. A coarser step produces visible gaps; the
/// value is a resolution trade-off, not a correctness parameter.
pub const SAMPLE_STEP: i64 = 9830;

/// The state of a frame as the rasterizer sees it: the character grid and
/// the depth grid.
pub type FrameView = (Seq<char>, Seq<i64>);

/// Where a sample point lands: its world coordinates are rotated and
/// projected, yielding either a screen cell and depth key or nothing.
pub open spec fn sample_cell(
    m: Mat3View,
    x: int,
    y: int,
    z: int,
    d: int,
    k1: int,
    w: int,
    h: int,
) -> Option<(int, int, int)> {
    let rot = rotate_spec(m, x, y, z);
    project_spec(rot.0, rot.1, rot.2, d, k1, w, h)
}

/// One sample plotted into a frame: the point is rotated and projected;
/// if it maps to a cell and is strictly nearer than what the cell holds,
/// the cell takes its glyph and depth key, otherwise nothing changes.
pub open spec fn plot_spec(
    v: FrameView,
    m: Mat3View,
    x: int,
    y: int,
    z: int,
    ch: char,
    d: int,
    k1: int,
    w: int,
    h: int,
) -> FrameView {
    match sample_cell(m, x, y, z, d, k1, w, h) {
        Option::None => v,
        Option::Some(cell) => {
            let idx = cell.0 + cell.1 * w;
            if cell.2 > v.1[idx] {
                (v.0.update(idx, ch), v.1.update(idx, cell.2 as i64))
            } else {
                v
            }
        },
    }
}

/// How many fixed-point units of sweep remain before `j` reaches `hw`;
/// the termination measure of the sampling recursions.
pub open spec fn sweep_left(j: int, hw: int) -> int {
    if j < hw {
        hw - j
    } else {
        0
    }
}

/// The six surface points of the cube at grid parameters `(i, j)`, plotted
/// in their fixed order, each face with its own glyph.
pub open spec fn plot_six_spec(
    v: FrameView,
    m: Mat3View,
    i: int,
    j: int,
    hw: int,
    d: int,
    k1: int,
    w: int,
    h: int,
) -> FrameView {
    let v1 = plot_spec(v, m, i, j, -hw, '@', d, k1, w, h);
    let v2 = plot_spec(v1, m, hw, j, i, '$', d, k1, w, h);
    let v3 = plot_spec(v2, m, -hw, j, -i, '~', d, k1, w, h);
    let v4 = plot_spec(v3, m, -i, j, hw, '#', d, k1, w, h);
    let v5 = plot_spec(v4, m, i, -hw, -j, ';', d, k1, w, h);
    plot_spec(v5, m, i, hw, j, '+', d, k1, w, h)
}

/// The six face samples at grid parameters `(i, j)`, in the order
/// `plot_six_spec` plots them.
pub open spec fn face_samples(i: int, j: int, hw: int) -> Seq<SamplePoint> {
    seq![
        SamplePoint { x: i, y: j, z: -hw, glyph: '@' },
        SamplePoint { x: hw, y: j, z: i, glyph: '$' },
        SamplePoint { x: -hw, y: j, z: -i, glyph: '~' },
        SamplePoint { x: -i, y: j, z: hw, glyph: '#' },
        SamplePoint { x: i, y: -hw, z: -j, glyph: ';' },
        SamplePoint { x: i, y: hw, z: j, glyph: '+' },
    ]
}

/// The six-face plot of one grid point is the sample sequence
/// `face_samples` plotted first to last, so the reordering law applies to
/// the sweep's own samples.
pub proof fn lemma_plot_six_as_seq(
    v: FrameView,
    m: Mat3View,
    i: int,
    j: int,
    hw: int,
    d: int,
    k1: int,
    w: int,
    h: int,
)
    ensures
        plot_six_spec(v, m, i, j, hw, d, k1, w, h) == plot_seq(
            v,
            m,
            face_samples(i, j, hw),
            d,
            k1,
            w,
            h,
        ),
{
    reveal_with_fuel(plot_seq, 7);
}

/// One row of the sweep: all samples with first parameter `i`, second
/// parameter from `j` up to `hw` in steps of `SAMPLE_STEP`.
pub open spec fn row_from_spec(
    v: FrameView,
    m: Mat3View,
    i: int,
    j: int,
    hw: int,
    d: int,
    k1: int,
    w: int,
    h: int,
) -> FrameView
    decreases sweep_left(j, hw),
{
    if j >= hw {
        v
    } else {
        row_from_spec(plot_six_spec(v, m, i, j, hw, d, k1, w, h), m, i, j + SAMPLE_STEP, hw, d, k1, w, h)
    }
}

/// The whole sweep: rows for first parameter from `i` up to `hw` in steps
/// of `SAMPLE_STEP`, each row sweeping `j` from `-hw`.
pub open spec fn cube_from_spec(
    v: FrameView,
    m: Mat3View,
    i: int,
    hw: int,
    d: int,
    k1: int,
    w: int,
    h: int,
) -> FrameView
    decreases sweep_left(i, hw),
{
    if i >= hw {
        v
    } else {
        cube_from_spec(
            row_from_spec(v, m, i, -hw, hw, d, k1, w, h),
            m,
            i + SAMPLE_STEP,
            hw,
            d,
            k1,
            w,
            h,
        )
    }
}

/// What rasterizing a cube of width `cube_width` does to a frame.
pub open spec fn draw_cube_spec(
    v: FrameView,
    m: Mat3View,
    cube_width: int,
    d: int,
    k1: int,
    w: int,
    h: int,
) -> FrameView {
    cube_from_spec(v, m, -(cube_width / 2), cube_width / 2, d, k1, w, h)
}

/// A cell returned by `sample_cell` lies inside the grid, and its
/// row-major index inside the frame.
pub proof fn lemma_cell_in_range(
    m: Mat3View,
    x: int,
    y: int,
    z: int,
    d: int,
    k1: int,
    w: int,
    h: int,
)
    requires
        1 <= w,
        1 <= h,
    ensures
        match sample_cell(m, x, y, z, d, k1, w, h) {
            Option::Some(c) => 0 <= c.0 < w && 0 <= c.1 < h && 0 <= c.0 + c.1 * w < w * h,
            Option::None => true,
        },
{
    let rot = rotate_spec(m, x, y, z);
    let zp = rot.2 + d;
    if zp > 0 {
        let ooz = (crate::projector::SCALE_SQUARED as int) / zp;
        let xn = w * (crate::projector::HALF_SCALE_CUBED as int) + 2 * k1 * ooz * rot.0;
        let yn = h * (crate::projector::HALF_SCALE_CUBED as int) + k1 * ooz * rot.1;
        if xn >= 0 && yn >= 0 {
            vstd::arithmetic::div_mod::lemma_div_pos_is_pos(
                xn,
                crate::projector::SCALE_CUBED as int,
            );
            vstd::arithmetic::div_mod::lemma_div_pos_is_pos(
                yn,
                crate::projector::SCALE_CUBED as int,
            );
            let xp = xn / (crate::projector::SCALE_CUBED as int);
            let yp = yn / (crate::projector::SCALE_CUBED as int);
            if xp < w && yp < h {
                assert(0 <= xp + yp * w < w * h) by (nonlinear_arith)
                    requires
                        0 <= xp < w,
                        0 <= yp < h,
                ;
            }
        }
    }
}

/// One sample point of the rasterization model: world coordinates and the
/// glyph of its face.
pub struct SamplePoint {
    pub x: int,
    pub y: int,
    pub z: int,
    pub glyph: char,
}

/// One sample plotted into the frame.
pub open spec fn plot_one(
    v: FrameView,
    m: Mat3View,
    s: SamplePoint,
    d: int,
    k1: int,
    w: int,
    h: int,
) -> FrameView {
    plot_spec(v, m, s.x, s.y, s.z, s.glyph, d, k1, w, h)
}

/// Two samples cannot tie: unless they are one and the same sample, when
/// both land on one cell their depth keys differ.
pub open spec fn compatible(
    m: Mat3View,
    a: SamplePoint,
    b: SamplePoint,
    d: int,
    k1: int,
    w: int,
    h: int,
) -> bool {
    a == b || match (
        sample_cell(m, a.x, a.y, a.z, d, k1, w, h),
        sample_cell(m, b.x, b.y, b.z, d, k1, w, h),
    ) {
        (Option::Some(c1), Option::Some(c2)) => c1.0 + c1.1 * w == c2.0 + c2.1 * w ==> c1.2
            != c2.2,
        _ => true,
    }
}

/// Plotting preserves the frame dimensions.
pub proof fn lemma_plot_one_len(
    v: FrameView,
    m: Mat3View,
    s: SamplePoint,
    d: int,
    k1: int,
    w: int,
    h: int,
)
    requires
        1 <= w,
        1 <= h,
        v.0.len() == w * h,
        v.1.len() == w * h,
    ensures
        plot_one(v, m, s, d, k1, w, h).0.len() == v.0.len(),
        plot_one(v, m, s, d, k1, w, h).1.len() == v.1.len(),
{
    lemma_cell_in_range(m, s.x, s.y, s.z, d, k1, w, h);
}

/// Law: depth resolution is order-independent for a pair. Plotting two
/// samples that do not tie yields the same frame in either order, since a
/// cell write happens only on a strictly greater depth key and an exact
/// tie is kept for the earlier writer.
pub proof fn lemma_plot_order_independent(
    v: FrameView,
    m: Mat3View,
    a: SamplePoint,
    b: SamplePoint,
    d: int,
    k1: int,
    w: int,
    h: int,
)
    requires
        1 <= w,
        1 <= h,
        v.0.len() == w * h,
        v.1.len() == w * h,
        compatible(m, a, b, d, k1, w, h),
    ensures
        plot_one(plot_one(v, m, a, d, k1, w, h), m, b, d, k1, w, h) == plot_one(
            plot_one(v, m, b, d, k1, w, h),
            m,
            a,
            d,
            k1,
            w,
            h,
        ),
{
    if a != b {
        lemma_cell_in_range(m, a.x, a.y, a.z, d, k1, w, h);
        lemma_cell_in_range(m, b.x, b.y, b.z, d, k1, w, h);
        let c1o = sample_cell(m, a.x, a.y, a.z, d, k1, w, h);
        let c2o = sample_cell(m, b.x, b.y, b.z, d, k1, w, h);
        let lhs = plot_one(plot_one(v, m, a, d, k1, w, h), m, b, d, k1, w, h);
        let rhs = plot_one(plot_one(v, m, b, d, k1, w, h), m, a, d, k1, w, h);
        if c1o is Some && c2o is Some {
            assert(lhs.0 =~= rhs.0);
            assert(lhs.1 =~= rhs.1);
        }
        assert(lhs == rhs);
    }
}

/// A whole sequence of samples, plotted first to last.
pub open spec fn plot_seq(
    v: FrameView,
    m: Mat3View,
    samples: Seq<SamplePoint>,
    d: int,
    k1: int,
    w: int,
    h: int,
) -> FrameView
    decreases samples.len(),
{
    if samples.len() == 0 {
        v
    } else {
        plot_seq(plot_one(v, m, samples[0], d, k1, w, h), m, samples.drop_first(), d, k1, w, h)
    }
}

/// No two distinct samples of the sequence tie.
pub open spec fn no_ties(
    m: Mat3View,
    samples: Seq<SamplePoint>,
    d: int,
    k1: int,
    w: int,
    h: int,
) -> bool {
    forall|i: int, j: int|
        0 <= i < samples.len() && 0 <= j < samples.len() && i != j ==> compatible(
            m,
            samples[i],
            samples[j],
            d,
            k1,
            w,
            h,
        )
}

/// A sample anywhere in an untied sequence may be plotted first instead:
/// it commutes past every sample before it.
proof fn lemma_plot_seq_extract(
    v: FrameView,
    m: Mat3View,
    samples: Seq<SamplePoint>,
    k: int,
    d: int,
    k1: int,
    w: int,
    h: int,
)
    requires
        1 <= w,
        1 <= h,
        v.0.len() == w * h,
        v.1.len() == w * h,
        0 <= k < samples.len(),
        no_ties(m, samples, d, k1, w, h),
    ensures
        plot_seq(v, m, samples, d, k1, w, h) == plot_seq(
            plot_one(v, m, samples[k], d, k1, w, h),
            m,
            samples.remove(k),
            d,
            k1,
            w,
            h,
        ),
    decreases k,
{
    if k == 0 {
        assert(samples.remove(0) =~= samples.drop_first());
    } else {
        let s0 = samples[0];
        let sk = samples[k];
        let rest = samples.drop_first();
        let v0 = plot_one(v, m, s0, d, k1, w, h);
        lemma_plot_one_len(v, m, s0, d, k1, w, h);
        assert forall|i: int, j: int|
            0 <= i < rest.len() && 0 <= j < rest.len() && i != j implies compatible(
            m,
            rest[i],
            rest[j],
            d,
            k1,
            w,
            h,
        ) by {
            assert(rest[i] == samples[i + 1]);
            assert(rest[j] == samples[j + 1]);
            assert(compatible(m, samples[i + 1], samples[j + 1], d, k1, w, h));
        }
        lemma_plot_seq_extract(v0, m, rest, k - 1, d, k1, w, h);
        assert(rest[k - 1] == sk);
        assert(compatible(m, s0, sk, d, k1, w, h));
        lemma_plot_order_independent(v, m, s0, sk, d, k1, w, h);
        let vk = plot_one(v, m, sk, d, k1, w, h);
        lemma_plot_one_len(v, m, sk, d, k1, w, h);
        assert(samples.remove(k)[0] == s0);
        assert(samples.remove(k).drop_first() =~= rest.remove(k - 1));
    }
}

/// Distinct occurrences in a reordering carry over the no-tie condition.
proof fn lemma_no_ties_transfer(
    m: Mat3View,
    s1: Seq<SamplePoint>,
    s2: Seq<SamplePoint>,
    d: int,
    k1: int,
    w: int,
    h: int,
)
    requires
        s1.to_multiset() == s2.to_multiset(),
        no_ties(m, s1, d, k1, w, h),
    ensures
        no_ties(m, s2, d, k1, w, h),
{
    broadcast use vstd::seq_lib::group_to_multiset_ensures;

    assert forall|i: int, j: int|
        0 <= i < s2.len() && 0 <= j < s2.len() && i != j implies compatible(
        m,
        s2[i],
        s2[j],
        d,
        k1,
        w,
        h,
    ) by {
        if s2[i] != s2[j] {
            assert(s2.contains(s2[i]));
            assert(s2.contains(s2[j]));
            assert(s2.to_multiset().count(s2[i]) > 0);
            assert(s2.to_multiset().count(s2[j]) > 0);
            assert(s1.to_multiset().count(s2[i]) > 0);
            assert(s1.to_multiset().count(s2[j]) > 0);
            assert(s1.contains(s2[i]));
            assert(s1.contains(s2[j]));
            let a = s1.lemma_contains_to_index(s2[i]);
            let b = s1.lemma_contains_to_index(s2[j]);
            assert(compatible(m, s1[a], s1[b], d, k1, w, h));
        }
    }
}

/// Law: depth resolution is idempotent under reordering. Rasterizing the
/// same multiset of sample points in any order yields the same final
/// frame, provided no two distinct samples tie — land on one cell with
/// equal depth keys — since a cell write happens only on a strictly
/// greater depth key and an exact tie is kept for the earlier writer.
pub proof fn lemma_raster_order_independent(
    v: FrameView,
    m: Mat3View,
    s1: Seq<SamplePoint>,
    s2: Seq<SamplePoint>,
    d: int,
    k1: int,
    w: int,
    h: int,
)
    requires
        1 <= w,
        1 <= h,
        v.0.len() == w * h,
        v.1.len() == w * h,
        s1.to_multiset() == s2.to_multiset(),
        no_ties(m, s1, d, k1, w, h),
    ensures
        plot_seq(v, m, s1, d, k1, w, h) == plot_seq(v, m, s2, d, k1, w, h),
    decreases s1.len(),
{
    broadcast use vstd::seq_lib::group_to_multiset_ensures;

    if s1.len() == 0 {
        assert(s1.to_multiset().len() == s1.len());
        assert(s2.to_multiset().len() == s2.len());
        assert(s2.len() == 0);
    } else {
        let e = s1[0];
        assert(s1.contains(e));
        assert(s1.to_multiset().count(e) > 0);
        assert(s2.to_multiset().count(e) > 0);
        assert(s2.contains(e));
        let k = s2.lemma_contains_to_index(e);
        lemma_no_ties_transfer(m, s1, s2, d, k1, w, h);
        lemma_plot_seq_extract(v, m, s2, k, d, k1, w, h);
        let ve = plot_one(v, m, e, d, k1, w, h);
        lemma_plot_one_len(v, m, e, d, k1, w, h);
        assert(s1.drop_first() =~= s1.remove(0));
        assert(s1.drop_first().to_multiset() =~= s2.remove(k).to_multiset());
        let rest = s1.drop_first();
        assert forall|i: int, j: int|
            0 <= i < rest.len() && 0 <= j < rest.len() && i != j implies compatible(
            m,
            rest[i],
            rest[j],
            d,
            k1,
            w,
            h,
        ) by {
            assert(rest[i] == s1[i + 1]);
            assert(rest[j] == s1[j + 1]);
            assert(compatible(m, s1[i + 1], s1[j + 1], d, k1, w, h));
        }
        lemma_raster_order_independent(ve, m, rest, s2.remove(k), d, k1, w, h);
    }
}

/// Rotates, projects and depth-tests one sample point against the frame.
pub fn calculate_for_point(
    x: i64,
    y: i64,
    z: i64,
    ch: char,
    frame_buffer: &mut FrameBuffer,
    screen_size: &ScreenSize,
    camera_settings: &CameraSettings,
    rotation_matrix: &Mat3,
)
    requires
        old(frame_buffer).wf(*screen_size),
        screen_size.valid(),
        camera_settings.valid(),
        mat_bounded(rotation_matrix@, MAT_MAX as int),
        -POINT_MAX <= x <= POINT_MAX,
        -POINT_MAX <= y <= POINT_MAX,
        -POINT_MAX <= z <= POINT_MAX,
    ensures
        final(frame_buffer).wf(*screen_size),
        (final(frame_buffer).buffer@, final(frame_buffer).z_buffer@) == plot_spec(
            (old(frame_buffer).buffer@, old(frame_buffer).z_buffer@),
            rotation_matrix@,
            x as int,
            y as int,
            z as int,
            ch,
            camera_settings.distance_from_cam as int,
            camera_settings.k1 as int,
            screen_size.width as int,
            screen_size.height as int,
        ),
{
    let rot = rotate_point(rotation_matrix, x, y, z);
    match project(rot.0, rot.1, rot.2, camera_settings, screen_size) {
        Some(cell) => {
            let (xp, yp, ooz) = cell;
            proof {
                assert(yp * screen_size.width + xp < screen_size.width * screen_size.height
                    && screen_size.width * screen_size.height <= 0x1000_0000) by (nonlinear_arith)
                    requires
                        xp < screen_size.width,
                        yp < screen_size.height,
                        0 <= xp,
                        0 <= yp,
                        screen_size.width <= 0x4000,
                        screen_size.height <= 0x4000,
                ;
            }
            let idx: usize = xp + yp * screen_size.width;
            if ooz > frame_buffer.z_buffer[idx] {
                frame_buffer.buffer.set(idx, ch);
                frame_buffer.z_buffer.set(idx, ooz);
            }
        },
        None => {},
    }
}

/// Sweeps the six cube faces over the sampling grid and rasterizes every
/// sample into the frame buffer, resolving depth conflicts by keeping the
/// nearest write per cell.
pub fn draw_cube(
    frame_buffer: &mut FrameBuffer,
    screen_size: &ScreenSize,
    camera_settings: &CameraSettings,
    rotation_matrix: &Mat3,
    cube_width: i64,
)
    requires
        old(frame_buffer).wf(*screen_size),
        screen_size.valid(),
        camera_settings.valid(),
        mat_bounded(rotation_matrix@, MAT_MAX as int),
        0 <= cube_width <= CUBE_WIDTH_MAX,
    ensures
        final(frame_buffer).wf(*screen_size),
        (final(frame_buffer).buffer@, final(frame_buffer).z_buffer@) == draw_cube_spec(
            (old(frame_buffer).buffer@, old(frame_buffer).z_buffer@),
            rotation_matrix@,
            cube_width as int,
            camera_settings.distance_from_cam as int,
            camera_settings.k1 as int,
            screen_size.width as int,
            screen_size.height as int,
        ),
{
    let ghost mv = rotation_matrix@;
    let ghost d: int = camera_settings.distance_from_cam as int;
    let ghost k1: int = camera_settings.k1 as int;
    let ghost w: int = screen_size.width as int;
    let ghost h: int = screen_size.height as int;
    let ghost v0 = (old(frame_buffer).buffer@, old(frame_buffer).z_buffer@);

    let half_width: i64 = cube_width / 2;
    let ghost hw: int = half_width as int;
    let mut i: i64 = -half_width;
    while i < half_width
        invariant
            frame_buffer.wf(*screen_size),
            screen_size.valid(),
            camera_settings.valid(),
            mat_bounded(mv, MAT_MAX as int),
            mv == rotation_matrix@,
            d == camera_settings.distance_from_cam as int,
            k1 == camera_settings.k1 as int,
            w == screen_size.width as int,
            h == screen_size.height as int,
            0 <= half_width <= POINT_MAX,
            hw == half_width as int,
            -half_width <= i,
            cube_from_spec(v0, mv, -hw, hw, d, k1, w, h) == cube_from_spec(
                (frame_buffer.buffer@, frame_buffer.z_buffer@),
                mv,
                i as int,
                hw,
                d,
                k1,
                w,
                h,
            ),
        decreases sweep_left(i as int, hw),
    {
        let ghost row0 = (frame_buffer.buffer@, frame_buffer.z_buffer@);
        let mut j: i64 = -half_width;
        while j < half_width
            invariant
                frame_buffer.wf(*screen_size),
                screen_size.valid(),
                camera_settings.valid(),
                mat_bounded(mv, MAT_MAX as int),
                mv == rotation_matrix@,
                d == camera_settings.distance_from_cam as int,
                k1 == camera_settings.k1 as int,
                w == screen_size.width as int,
                h == screen_size.height as int,
                0 <= half_width <= POINT_MAX,
                hw == half_width as int,
                -half_width <= i < half_width,
                -half_width <= j,
                row_from_spec(row0, mv, i as int, -hw, hw, d, k1, w, h) == row_from_spec(
                    (frame_buffer.buffer@, frame_buffer.z_buffer@),
                    mv,
                    i as int,
                    j as int,
                    hw,
                    d,
                    k1,
                    w,
                    h,
                ),
            decreases sweep_left(j as int, hw),
        {
            calculate_for_point(
                i,
                j,
                -half_width,
                '@',
                frame_buffer,
                screen_size,
                camera_settings,
                rotation_matrix,
            );
            calculate_for_point(
                half_width,
                j,
                i,
                '$',
                frame_buffer,
                screen_size,
                camera_settings,
                rotation_matrix,
            );
            calculate_for_point(
                -half_width,
                j,
                -i,
                '~',
                frame_buffer,
                screen_size,
                camera_settings,
                rotation_matrix,
            );
            calculate_for_point(
                -i,
                j,
                half_width,
                '#',
                frame_buffer,
                screen_size,
                camera_settings,
                rotation_matrix,
            );
            calculate_for_point(
                i,
                -half_width,
                -j,
                ';',
                frame_buffer,
                screen_size,
                camera_settings,
                rotation_matrix,
            );
            calculate_for_point(
                i,
                half_width,
                j,
                '+',
                frame_buffer,
                screen_size,
                camera_settings,
                rotation_matrix,
            );
            j = j + SAMPLE_STEP;
        }
        i = i + SAMPLE_STEP;
    }
    proof {
        assert(cube_from_spec(
            (frame_buffer.buffer@, frame_buffer.z_buffer@),
            mv,
            i as int,
            hw,
            d,
            k1,
            w,
            h,
        ) == (frame_buffer.buffer@, frame_buffer.z_buffer@));
    }
}

} // verus!
