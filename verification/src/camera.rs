//! First-person camera: orientation tracking from pointer input and the
//! hand-rolled 4x4 matrix constructors of the renderer.
//!
//! All scalars are binary32 bit patterns (see `math`). Matrices are sixteen
//! scalars in column-major flattened layout: elements 12/13/14 hold the
//! translation column and elements 0/5/10 the diagonal scale terms.
use vstd::prelude::*;

use crate::math::BITS_180;
use crate::math::BITS_NEG_ONE;
use crate::math::BITS_ONE;
use crate::math::BITS_PI;
use crate::math::BITS_TWO;
use crate::math::BITS_ZERO;
use crate::math::add_bits;
use crate::math::cos_bits;
use crate::math::div_bits;
use crate::math::eq_bits;
use crate::math::f32_add;
use crate::math::f32_cos;
use crate::math::f32_div;
use crate::math::f32_equal;
use crate::math::f32_less;
use crate::math::f32_mul;
use crate::math::f32_neg;
use crate::math::f32_sin;
use crate::math::f32_sqrt;
use crate::math::f32_sub;
use crate::math::f32_tan;
use crate::math::float_is_nan;
use crate::math::float_key;
use crate::math::lt_bits;
use crate::math::mul_bits;
use crate::math::neg_bits;
use crate::math::sin_bits;
use crate::math::sqrt_bits;
use crate::math::sub_bits;
use crate::math::tan_bits;

verus! {

/// Bit pattern of -90.0, the initial yaw: facing along the negative z axis.
pub const BITS_YAW_START: u32 = 0xC2B4_0000;

/// Bit pattern of 89.0, the upper pitch bound.
pub const BITS_PITCH_LIMIT: u32 = 0x42B2_0000;

/// Bit pattern of -89.0, the lower pitch bound.
pub const BITS_PITCH_LIMIT_NEG: u32 = 0xC2B2_0000;

/// Dot product of two 3-vectors, summed left to right.
pub open spec fn spec_dot(a: Seq<u32>, b: Seq<u32>) -> u32 {
    add_bits(add_bits(mul_bits(a[0], b[0]), mul_bits(a[1], b[1])), mul_bits(a[2], b[2]))
}

/// Cross product of two 3-vectors.
pub open spec fn spec_cross(a: Seq<u32>, b: Seq<u32>) -> Seq<u32> {
    seq![
        sub_bits(mul_bits(a[1], b[2]), mul_bits(a[2], b[1])),
        sub_bits(mul_bits(a[2], b[0]), mul_bits(a[0], b[2])),
        sub_bits(mul_bits(a[0], b[1]), mul_bits(a[1], b[0])),
    ]
}

/// Euclidean length of a 3-vector: the square root of the dot product with
/// itself.
pub open spec fn spec_length(v: Seq<u32>) -> u32 {
    sqrt_bits(add_bits(add_bits(mul_bits(v[0], v[0]), mul_bits(v[1], v[1])), mul_bits(v[2], v[2])))
}

/// Normalization with a division-by-zero guard: a vector of zero length maps
/// to the zero vector instead of faulting.
pub open spec fn spec_normalize(v: Seq<u32>) -> Seq<u32> {
    let len = spec_length(v);
    if !eq_bits(len, BITS_ZERO) {
        seq![div_bits(v[0], len), div_bits(v[1], len), div_bits(v[2], len)]
    } else {
        seq![BITS_ZERO, BITS_ZERO, BITS_ZERO]
    }
}

/// Degrees to radians: multiplication by pi / 180, both computed in binary32.
pub open spec fn spec_to_radiance(deg: u32) -> u32 {
    mul_bits(deg, div_bits(BITS_PI, BITS_180))
}

/// Pitch clamped to the closed range [-89, 89]; a NaN passes through, since
/// IEEE comparisons never report it out of range.
pub open spec fn spec_clamp_pitch(p: u32) -> u32 {
    if lt_bits(p, BITS_PITCH_LIMIT_NEG) {
        BITS_PITCH_LIMIT_NEG
    } else if lt_bits(BITS_PITCH_LIMIT, p) {
        BITS_PITCH_LIMIT
    } else {
        p
    }
}

/// The pitch bound as observed through IEEE compares: a non-NaN pitch lies
/// between -89 and 89 inclusive.
pub open spec fn pitch_in_range(p: u32) -> bool {
    !float_is_nan(p) ==> {
        &&& float_key(BITS_PITCH_LIMIT_NEG) <= float_key(p)
        &&& float_key(p) <= float_key(BITS_PITCH_LIMIT)
    }
}

/// Clamping always lands in the pitch range.
pub proof fn lemma_clamp_pitch_in_range(p: u32)
    ensures
        pitch_in_range(spec_clamp_pitch(p)),
{
}

/// Spherical-to-Cartesian direction for the given yaw and pitch, in degrees.
pub open spec fn spec_direction(yaw: u32, pitch: u32) -> Seq<u32> {
    let yaw_rad = spec_to_radiance(yaw);
    let pitch_rad = spec_to_radiance(pitch);
    seq![
        mul_bits(cos_bits(yaw_rad), cos_bits(pitch_rad)),
        sin_bits(pitch_rad),
        mul_bits(sin_bits(yaw_rad), cos_bits(pitch_rad)),
    ]
}

/// Yaw after a pointer movement: the raw horizontal offset from the stored
/// center, scaled by the sensitivity, accumulated onto the old yaw.
pub open spec fn spec_next_yaw(cam: Camera, x_pos: u32) -> u32 {
    add_bits(cam.gl_camera_yaw, mul_bits(sub_bits(x_pos, cam.center_x), cam.gl_camera_sensitivity))
}

/// Pitch after a pointer movement: the raw vertical offset (inverted, screen
/// y grows downward), scaled by the sensitivity, accumulated and clamped.
pub open spec fn spec_next_pitch(cam: Camera, y_pos: u32) -> u32 {
    spec_clamp_pitch(
        add_bits(
            cam.gl_camera_pitch,
            mul_bits(sub_bits(cam.center_y, y_pos), cam.gl_camera_sensitivity),
        ),
    )
}

#[derive(Debug, Clone)]
pub struct Camera {
    pub gl_camera_pos: [u32; 3],
    pub gl_camera_front: [u32; 3],
    pub gl_camera_up: [u32; 3],
    pub gl_camera_sensitivity: u32,
    pub gl_camera_yaw: u32,
    pub gl_camera_pitch: u32,
    pub first_move: bool,
    pub center_x: u32,
    pub center_y: u32,
}

impl Camera {
    pub fn new(
        position: [u32; 3],
        up: [u32; 3],
        sensitivity: u32,
        center_x: u32,
        center_y: u32,
    ) -> (cam: Self)
        ensures
            cam.gl_camera_pos == position,
            cam.gl_camera_front@ == seq![BITS_ZERO, BITS_ZERO, BITS_ZERO],
            cam.gl_camera_up == up,
            cam.gl_camera_sensitivity == sensitivity,
            cam.gl_camera_yaw == BITS_YAW_START,
            cam.gl_camera_pitch == BITS_ZERO,
            cam.first_move == true,
            cam.center_x == center_x,
            cam.center_y == center_y,
            pitch_in_range(cam.gl_camera_pitch),
    {
        Self {
            gl_camera_pos: position,
            gl_camera_front: [BITS_ZERO, BITS_ZERO, BITS_ZERO],
            gl_camera_up: up,
            gl_camera_sensitivity: sensitivity,
            gl_camera_yaw: BITS_YAW_START,
            gl_camera_pitch: BITS_ZERO,
            first_move: true,
            center_x,
            center_y,
        }
    }

    /// On the first call after construction only the reference center is
    /// recorded: yaw, pitch and the forward vector stay untouched, so an
    /// uninitialized center cannot cause a spurious jump. Every later call
    /// accumulates the scaled offsets into yaw and pitch, clamps the pitch,
    /// and recomputes the forward vector from the new angles.
    pub fn process_mouse_movement(&mut self, x_pos: u32, y_pos: u32)
        ensures
            final(self).center_x == x_pos,
            final(self).center_y == y_pos,
            final(self).first_move == false,
            final(self).gl_camera_pos == old(self).gl_camera_pos,
            final(self).gl_camera_up == old(self).gl_camera_up,
            final(self).gl_camera_sensitivity == old(self).gl_camera_sensitivity,
            old(self).first_move ==> {
                &&& final(self).gl_camera_yaw == old(self).gl_camera_yaw
                &&& final(self).gl_camera_pitch == old(self).gl_camera_pitch
                &&& final(self).gl_camera_front == old(self).gl_camera_front
            },
            !old(self).first_move ==> {
                &&& final(self).gl_camera_yaw == spec_next_yaw(*old(self), x_pos)
                &&& final(self).gl_camera_pitch == spec_next_pitch(*old(self), y_pos)
                &&& final(self).gl_camera_front@ == spec_normalize(
                    spec_direction(spec_next_yaw(*old(self), x_pos), spec_next_pitch(*old(self), y_pos)),
                )
            },
            pitch_in_range(old(self).gl_camera_pitch) ==> pitch_in_range(
                final(self).gl_camera_pitch,
            ),
    {
        if self.first_move {
            self.center_x = x_pos;
            self.center_y = y_pos;
            self.first_move = false;
            return ;
        }
        let offset_x = f32_mul(f32_sub(x_pos, self.center_x), self.gl_camera_sensitivity);
        let offset_y = f32_mul(f32_sub(self.center_y, y_pos), self.gl_camera_sensitivity);

        self.center_x = x_pos;
        self.center_y = y_pos;

        self.gl_camera_yaw = f32_add(self.gl_camera_yaw, offset_x);
        let raw_pitch = f32_add(self.gl_camera_pitch, offset_y);
        self.gl_camera_pitch = Camera::clamp_pitch(raw_pitch);

        proof {
            lemma_clamp_pitch_in_range(raw_pitch);
        }

        let yaw_rad = Camera::to_radiance(self.gl_camera_yaw);
        let pitch_rad = Camera::to_radiance(self.gl_camera_pitch);

        let direction = [
            f32_mul(f32_cos(yaw_rad), f32_cos(pitch_rad)),
            f32_sin(pitch_rad),
            f32_mul(f32_sin(yaw_rad), f32_cos(pitch_rad)),
        ];
        self.gl_camera_front = Camera::normalize(&direction);
    }

    /// Pitch clamped to [-89, 89] through IEEE compares.
    pub fn clamp_pitch(p: u32) -> (r: u32)
        ensures
            r == spec_clamp_pitch(p),
    {
        if f32_less(p, BITS_PITCH_LIMIT_NEG) {
            BITS_PITCH_LIMIT_NEG
        } else if f32_less(BITS_PITCH_LIMIT, p) {
            BITS_PITCH_LIMIT
        } else {
            p
        }
    }

    /// Moves the position along the forward vector, scaled by the speed.
    pub fn move_forward(&mut self, speed: u32)
        ensures
            final(self).gl_camera_pos@ == seq![
                add_bits(old(self).gl_camera_pos[0], mul_bits(old(self).gl_camera_front[0], speed)),
                add_bits(old(self).gl_camera_pos[1], mul_bits(old(self).gl_camera_front[1], speed)),
                add_bits(old(self).gl_camera_pos[2], mul_bits(old(self).gl_camera_front[2], speed)),
            ],
            unchanged_but_pos(*old(self), *final(self)),
    {
        self.gl_camera_pos = [
            f32_add(self.gl_camera_pos[0], f32_mul(self.gl_camera_front[0], speed)),
            f32_add(self.gl_camera_pos[1], f32_mul(self.gl_camera_front[1], speed)),
            f32_add(self.gl_camera_pos[2], f32_mul(self.gl_camera_front[2], speed)),
        ];
    }

    /// Moves the position against the forward vector, scaled by the speed.
    pub fn move_back(&mut self, speed: u32)
        ensures
            final(self).gl_camera_pos@ == seq![
                sub_bits(old(self).gl_camera_pos[0], mul_bits(old(self).gl_camera_front[0], speed)),
                sub_bits(old(self).gl_camera_pos[1], mul_bits(old(self).gl_camera_front[1], speed)),
                sub_bits(old(self).gl_camera_pos[2], mul_bits(old(self).gl_camera_front[2], speed)),
            ],
            unchanged_but_pos(*old(self), *final(self)),
    {
        self.gl_camera_pos = [
            f32_sub(self.gl_camera_pos[0], f32_mul(self.gl_camera_front[0], speed)),
            f32_sub(self.gl_camera_pos[1], f32_mul(self.gl_camera_front[1], speed)),
            f32_sub(self.gl_camera_pos[2], f32_mul(self.gl_camera_front[2], speed)),
        ];
    }

    /// Moves the position along the normalized right vector (cross of forward
    /// and up), scaled by the speed.
    pub fn move_right(&mut self, speed: u32)
        ensures
            final(self).gl_camera_pos@ == spec_strafed_pos(*old(self), speed, true),
            unchanged_but_pos(*old(self), *final(self)),
    {
        let cross_product = Camera::cross(self.gl_camera_front, self.gl_camera_up);
        let normalized = Camera::normalize(&cross_product);
        self.gl_camera_pos = [
            f32_add(self.gl_camera_pos[0], f32_mul(normalized[0], speed)),
            f32_add(self.gl_camera_pos[1], f32_mul(normalized[1], speed)),
            f32_add(self.gl_camera_pos[2], f32_mul(normalized[2], speed)),
        ];
    }

    /// Moves the position against the normalized right vector, scaled by the
    /// speed.
    pub fn move_left(&mut self, speed: u32)
        ensures
            final(self).gl_camera_pos@ == spec_strafed_pos(*old(self), speed, false),
            unchanged_but_pos(*old(self), *final(self)),
    {
        let cross_product = Camera::cross(self.gl_camera_front, self.gl_camera_up);
        let normalized = Camera::normalize(&cross_product);
        self.gl_camera_pos = [
            f32_sub(self.gl_camera_pos[0], f32_mul(normalized[0], speed)),
            f32_sub(self.gl_camera_pos[1], f32_mul(normalized[1], speed)),
            f32_sub(self.gl_camera_pos[2], f32_mul(normalized[2], speed)),
        ];
    }

    pub fn cross(v1: [u32; 3], v2: [u32; 3]) -> (r: [u32; 3])
        ensures
            r@ == spec_cross(v1@, v2@),
    {
        let r = [
            f32_sub(f32_mul(v1[1], v2[2]), f32_mul(v1[2], v2[1])),
            f32_sub(f32_mul(v1[2], v2[0]), f32_mul(v1[0], v2[2])),
            f32_sub(f32_mul(v1[0], v2[1]), f32_mul(v1[1], v2[0])),
        ];
        proof {
            assert(r@ =~= spec_cross(v1@, v2@));
        }
        r
    }

    pub fn normalize(v: &[u32; 3]) -> (r: [u32; 3])
        ensures
            r@ == spec_normalize(v@),
    {
        let length = f32_sqrt(
            f32_add(
                f32_add(f32_mul(v[0], v[0]), f32_mul(v[1], v[1])),
                f32_mul(v[2], v[2]),
            ),
        );
        let r = if !f32_equal(length, BITS_ZERO) {
            [f32_div(v[0], length), f32_div(v[1], length), f32_div(v[2], length)]
        } else {
            [BITS_ZERO, BITS_ZERO, BITS_ZERO]
        };
        proof {
            assert(r@ =~= spec_normalize(v@));
        }
        r
    }

    pub fn dot(a: [u32; 3], b: [u32; 3]) -> (r: u32)
        ensures
            r == spec_dot(a@, b@),
    {
        f32_add(f32_add(f32_mul(a[0], b[0]), f32_mul(a[1], b[1])), f32_mul(a[2], b[2]))
    }

    /// Right-handed perspective projection: the focal term is the reciprocal
    /// tangent of half the field of view, and the depth terms are built over
    /// the range near - far.
    pub fn perspective(fov: u32, aspect: u32, near: u32, far: u32) -> (r: [u32; 16])
        ensures
            r@ == spec_perspective(fov, aspect, near, far),
    {
        let f = f32_div(BITS_ONE, f32_tan(f32_div(Camera::to_radiance(fov), BITS_TWO)));
        let range = f32_sub(near, far);

        let r = [
            f32_div(f, aspect),
            BITS_ZERO,
            BITS_ZERO,
            BITS_ZERO,
            BITS_ZERO,
            f,
            BITS_ZERO,
            BITS_ZERO,
            BITS_ZERO,
            BITS_ZERO,
            f32_div(f32_add(far, near), range),
            BITS_NEG_ONE,
            BITS_ZERO,
            BITS_ZERO,
            f32_div(f32_mul(f32_mul(BITS_TWO, far), near), range),
            BITS_ZERO,
        ];
        proof {
            assert(r@ =~= spec_perspective(fov, aspect, near, far));
        }
        r
    }

    /// View matrix from an orthonormal basis: forward is the normalized
    /// difference of position and target, right the normalized cross of up
    /// and forward, the corrected up their cross; the translation column
    /// holds the negated dot of each axis with the position.
    pub fn look_at(position: [u32; 3], target: [u32; 3], up: [u32; 3]) -> (r: [u32; 16])
        ensures
            r@ == spec_look_at(position@, target@, up@),
    {
        let difference = [
            f32_sub(position[0], target[0]),
            f32_sub(position[1], target[1]),
            f32_sub(position[2], target[2]),
        ];
        proof {
            assert(difference@ =~= spec_difference(position@, target@));
        }
        let forward = Camera::normalize(&difference);
        let right = Camera::normalize(&Camera::cross(up, forward));
        let up_corrected = Camera::cross(forward, right);

        let r = [
            right[0],
            up_corrected[0],
            forward[0],
            BITS_ZERO,
            right[1],
            up_corrected[1],
            forward[1],
            BITS_ZERO,
            right[2],
            up_corrected[2],
            forward[2],
            BITS_ZERO,
            f32_neg(Camera::dot(right, position)),
            f32_neg(Camera::dot(up_corrected, position)),
            f32_neg(Camera::dot(forward, position)),
            BITS_ONE,
        ];
        proof {
            assert(r@ =~= spec_look_at(position@, target@, up@));
        }
        r
    }

    /// Adds the delta onto the translation column (elements 12, 13, 14).
    pub fn translate(matrix: [u32; 16], translation: [u32; 3]) -> (r: [u32; 16])
        ensures
            r@ == matrix@.update(12, add_bits(matrix@[12], translation@[0])).update(
                13,
                add_bits(matrix@[13], translation@[1]),
            ).update(14, add_bits(matrix@[14], translation@[2])),
    {
        let mut result = matrix;

        result[12] = f32_add(result[12], translation[0]);
        result[13] = f32_add(result[13], translation[1]);
        result[14] = f32_add(result[14], translation[2]);

        proof {
            assert(result@ =~= matrix@.update(12, add_bits(matrix@[12], translation@[0])).update(
                13,
                add_bits(matrix@[13], translation@[1]),
            ).update(14, add_bits(matrix@[14], translation@[2])));
        }
        result
    }

    /// Multiplies the diagonal scale terms (elements 0, 5, 10) by the factors.
    pub fn scale(matrix: [u32; 16], scale: [u32; 3]) -> (r: [u32; 16])
        ensures
            r@ == matrix@.update(0, mul_bits(matrix@[0], scale@[0])).update(
                5,
                mul_bits(matrix@[5], scale@[1]),
            ).update(10, mul_bits(matrix@[10], scale@[2])),
    {
        let mut result = matrix;

        result[0] = f32_mul(result[0], scale[0]);
        result[5] = f32_mul(result[5], scale[1]);
        result[10] = f32_mul(result[10], scale[2]);

        proof {
            assert(result@ =~= matrix@.update(0, mul_bits(matrix@[0], scale@[0])).update(
                5,
                mul_bits(matrix@[5], scale@[1]),
            ).update(10, mul_bits(matrix@[10], scale@[2])));
        }
        result
    }

    pub fn identity_matrix() -> (r: [u32; 16])
        ensures
            r@ == spec_identity(),
    {
        let r = [
            BITS_ONE,
            BITS_ZERO,
            BITS_ZERO,
            BITS_ZERO,
            BITS_ZERO,
            BITS_ONE,
            BITS_ZERO,
            BITS_ZERO,
            BITS_ZERO,
            BITS_ZERO,
            BITS_ONE,
            BITS_ZERO,
            BITS_ZERO,
            BITS_ZERO,
            BITS_ZERO,
            BITS_ONE,
        ];
        proof {
            assert(r@ =~= spec_identity());
        }
        r
    }

    pub fn to_radiance(deg: u32) -> (r: u32)
        ensures
            r == spec_to_radiance(deg),
    {
        f32_mul(deg, f32_div(BITS_PI, BITS_180))
    }
}

/// Everything of the camera but the position is unchanged.
pub open spec fn unchanged_but_pos(before: Camera, after: Camera) -> bool {
    &&& after.gl_camera_front == before.gl_camera_front
    &&& after.gl_camera_up == before.gl_camera_up
    &&& after.gl_camera_sensitivity == before.gl_camera_sensitivity
    &&& after.gl_camera_yaw == before.gl_camera_yaw
    &&& after.gl_camera_pitch == before.gl_camera_pitch
    &&& after.first_move == before.first_move
    &&& after.center_x == before.center_x
    &&& after.center_y == before.center_y
}

/// Position after a strafe: the normalized right vector scaled by the speed,
/// added to or subtracted from the position.
pub open spec fn spec_strafed_pos(cam: Camera, speed: u32, to_the_right: bool) -> Seq<u32> {
    let normalized = spec_normalize(spec_cross(cam.gl_camera_front@, cam.gl_camera_up@));
    if to_the_right {
        seq![
            add_bits(cam.gl_camera_pos[0], mul_bits(normalized[0], speed)),
            add_bits(cam.gl_camera_pos[1], mul_bits(normalized[1], speed)),
            add_bits(cam.gl_camera_pos[2], mul_bits(normalized[2], speed)),
        ]
    } else {
        seq![
            sub_bits(cam.gl_camera_pos[0], mul_bits(normalized[0], speed)),
            sub_bits(cam.gl_camera_pos[1], mul_bits(normalized[1], speed)),
            sub_bits(cam.gl_camera_pos[2], mul_bits(normalized[2], speed)),
        ]
    }
}

/// Componentwise difference of two 3-vectors.
pub open spec fn spec_difference(a: Seq<u32>, b: Seq<u32>) -> Seq<u32> {
    seq![sub_bits(a[0], b[0]), sub_bits(a[1], b[1]), sub_bits(a[2], b[2])]
}

/// The perspective projection matrix, column-major.
pub open spec fn spec_perspective(fov: u32, aspect: u32, near: u32, far: u32) -> Seq<u32> {
    let f = div_bits(BITS_ONE, tan_bits(div_bits(spec_to_radiance(fov), BITS_TWO)));
    let range = sub_bits(near, far);
    seq![
        div_bits(f, aspect),
        BITS_ZERO,
        BITS_ZERO,
        BITS_ZERO,
        BITS_ZERO,
        f,
        BITS_ZERO,
        BITS_ZERO,
        BITS_ZERO,
        BITS_ZERO,
        div_bits(add_bits(far, near), range),
        BITS_NEG_ONE,
        BITS_ZERO,
        BITS_ZERO,
        div_bits(mul_bits(mul_bits(BITS_TWO, far), near), range),
        BITS_ZERO,
    ]
}

/// The view matrix, column-major.
pub open spec fn spec_look_at(position: Seq<u32>, target: Seq<u32>, up: Seq<u32>) -> Seq<u32> {
    let forward = spec_normalize(spec_difference(position, target));
    let right = spec_normalize(spec_cross(up, forward));
    let up_corrected = spec_cross(forward, right);
    seq![
        right[0],
        up_corrected[0],
        forward[0],
        BITS_ZERO,
        right[1],
        up_corrected[1],
        forward[1],
        BITS_ZERO,
        right[2],
        up_corrected[2],
        forward[2],
        BITS_ZERO,
        neg_bits(spec_dot(right, position)),
        neg_bits(spec_dot(up_corrected, position)),
        neg_bits(spec_dot(forward, position)),
        BITS_ONE,
    ]
}

/// The identity matrix, column-major.
pub open spec fn spec_identity() -> Seq<u32> {
    seq![
        BITS_ONE,
        BITS_ZERO,
        BITS_ZERO,
        BITS_ZERO,
        BITS_ZERO,
        BITS_ONE,
        BITS_ZERO,
        BITS_ZERO,
        BITS_ZERO,
        BITS_ZERO,
        BITS_ONE,
        BITS_ZERO,
        BITS_ZERO,
        BITS_ZERO,
        BITS_ZERO,
        BITS_ONE,
    ]
}

} // verus!
