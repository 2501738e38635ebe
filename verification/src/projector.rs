//! Perspective projection of a rotated point onto the character grid.
//!
//! A point is mapped through a pinhole-camera model: its depth key is the
//! fixed-point reciprocal of its distance from the camera (larger means
//! nearer), and its screen cell comes from scaling the x and y coordinates
//! by the depth key. A point whose cell falls outside the grid, or which
//! lies at or behind the camera plane, is rejected rather than clamped:
//! rejected points are silently dropped, by design.

use vstd::prelude::*;
use crate::math::SCALE;
use crate::screen::{CameraSettings, ScreenSize};

verus! {

/// Largest accepted magnitude of a rotated coordinate handed to `project`.
pub const COORD_MAX: i64 = 0x2000_0000;

/// The square of `SCALE`: the numerator of the fixed-point reciprocal.
pub const SCALE_SQUARED: i64 = SCALE * SCALE;

/// The cube of `SCALE`: the unit of the screen-coordinate numerators.
pub const SCALE_CUBED: i64 = SCALE * SCALE * SCALE;

/// Half of `SCALE_CUBED`: one half cell, in numerator units.
pub const HALF_SCALE_CUBED: i64 = 0x8000_0000_0000;

/// The projection, mathematically: given a rotated point `(x, y, z)`, the
/// camera distance `d` and scale `k1`, and the grid size `w` by `h`, either
/// the screen cell and depth key, or `None` for a dropped point.
///
/// The depth key is `SCALE * SCALE / (z + d)`, the fixed-point reciprocal
/// of the point's distance from the camera. The x offset carries an extra
/// factor of 2 to compensate for the aspect ratio of terminal character
/// cells.
pub open spec fn project_spec(
    x: int,
    y: int,
    z: int,
    d: int,
    k1: int,
    w: int,
    h: int,
) -> Option<(int, int, int)> {
    let zp = z + d;
    if zp <= 0 {
        None
    } else {
        let ooz = (SCALE_SQUARED as int) / zp;
        let xn = w * (HALF_SCALE_CUBED as int) + 2 * k1 * ooz * x;
        let yn = h * (HALF_SCALE_CUBED as int) + k1 * ooz * y;
        if xn < 0 || yn < 0 {
            None
        } else {
            let xp = xn / (SCALE_CUBED as int);
            let yp = yn / (SCALE_CUBED as int);
            if xp < w && yp < h {
                Some((xp, yp, ooz))
            } else {
                None
            }
        }
    }
}

/// Whether an executable projection result and its model agree.
pub open spec fn cell_matches(r: Option<(usize, usize, i64)>, s: Option<(int, int, int)>) -> bool {
    match (r, s) {
        (Option::None, Option::None) => true,
        (Option::Some(c), Option::Some(d)) => c.0 == d.0 && c.1 == d.1 && c.2 == d.2,
        _ => false,
    }
}

/// Projects a rotated point to a screen cell and a depth key.
pub fn project(
    x: i64,
    y: i64,
    z: i64,
    cam: &CameraSettings,
    screen: &ScreenSize,
) -> (r: Option<(usize, usize, i64)>)
    requires
        -COORD_MAX <= x <= COORD_MAX,
        -COORD_MAX <= y <= COORD_MAX,
        -COORD_MAX <= z <= COORD_MAX,
        cam.valid(),
        screen.valid(),
    ensures
        cell_matches(
            r,
            project_spec(
                x as int,
                y as int,
                z as int,
                cam.distance_from_cam as int,
                cam.k1 as int,
                screen.width as int,
                screen.height as int,
            ),
        ),
        r matches Some(c) ==> z + cam.distance_from_cam > 0 && c.2 == (SCALE_SQUARED as int) / (z
            + cam.distance_from_cam),
{
    let zp: i64 = z + cam.distance_from_cam;
    if zp <= 0 {
        return None;
    }
    let ooz_u: u64 = (SCALE_SQUARED as u64) / (zp as u64);
    proof {
        assert(zp as u64 == zp as int);
        assert(ooz_u <= SCALE_SQUARED as u64) by {
            vstd::arithmetic::div_mod::lemma_div_is_ordered_by_denominator(
                SCALE_SQUARED as int,
                1,
                zp as int,
            );
        }
    }
    let ooz: i64 = ooz_u as i64;

    let wq: i128 = screen.width as i128;
    let hq: i128 = screen.height as i128;
    let base_x: i128 = wq * (HALF_SCALE_CUBED as i128);
    let base_y: i128 = hq * (HALF_SCALE_CUBED as i128);
    proof {
        assert(0 <= base_x <= 0x4000_0000_0000_0000_0000 && 0 <= base_y
            <= 0x4000_0000_0000_0000_0000) by (nonlinear_arith)
            requires
                base_x == wq * (HALF_SCALE_CUBED as i128),
                base_y == hq * (HALF_SCALE_CUBED as i128),
                0 <= wq <= 0x4000,
                0 <= hq <= 0x4000,
        ;
    }
    let t1: i128 = 2 * (cam.k1 as i128);
    proof {
        assert(0 <= t1 * (ooz as i128) <= 0x200_0000_0000_0000_0000) by (nonlinear_arith)
            requires
                0 <= t1 <= 0x200_0000,
                0 <= (ooz as i128) <= 0x1_0000_0000,
        ;
    }
    let t2: i128 = t1 * (ooz as i128);
    proof {
        assert(-(0x200_0000_0000_0000_0000 * 0x2000_0000) <= t2 * (x as i128)
            <= 0x200_0000_0000_0000_0000 * 0x2000_0000) by (nonlinear_arith)
            requires
                0 <= t2 <= 0x200_0000_0000_0000_0000,
                -0x2000_0000 <= (x as i128) <= 0x2000_0000,
        ;
    }
    let t3: i128 = t2 * (x as i128);
    proof {
        assert(0 <= (cam.k1 as i128) * (ooz as i128) <= 0x100_0000_0000_0000_0000)
            by (nonlinear_arith)
            requires
                0 <= (cam.k1 as i128) <= 0x100_0000,
                0 <= (ooz as i128) <= 0x1_0000_0000,
        ;
    }
    let t2y: i128 = (cam.k1 as i128) * (ooz as i128);
    proof {
        assert(-(0x100_0000_0000_0000_0000 * 0x2000_0000) <= t2y * (y as i128)
            <= 0x100_0000_0000_0000_0000 * 0x2000_0000) by (nonlinear_arith)
            requires
                0 <= t2y <= 0x100_0000_0000_0000_0000,
                -0x2000_0000 <= (y as i128) <= 0x2000_0000,
        ;
    }
    let t3y: i128 = t2y * (y as i128);
    let xn: i128 = base_x + t3;
    let yn: i128 = base_y + t3y;
    if xn < 0 || yn < 0 {
        return None;
    }
    let xq: u128 = (xn as u128) / (SCALE_CUBED as u128);
    let yq: u128 = (yn as u128) / (SCALE_CUBED as u128);
    proof {
        assert(xn as u128 == xn as int);
        assert(yn as u128 == yn as int);
    }
    if xq < screen.width as u128 && yq < screen.height as u128 {
        Some((xq as usize, yq as usize, ooz))
    } else {
        None
    }
}

} // verus!
