//! The player-movement behavior: reads the movement keys and walks the
//! owning entity at its walk speed, immediately pushing the entity's new
//! vertex data into the shared vertex buffer.

use vstd::prelude::*;

use crate::input::ReadOnlyInput;
use crate::math::FP_ONE;

verus! {

/// Walk distance per unit of walk speed per second, in raw units
/// (about seven hundredths of a world unit).
pub const PLAYER_STEP: i64 = 4588;

/// The largest supported walk speed, in `FP_ONE` scale.
pub const MAX_WALK_SPEED: i64 = 64 * 65536;

/// The largest supported frame delta, in `FP_ONE`-scaled seconds.
pub const MAX_DELTA_TIME: i64 = 4 * 65536;

/// An upper bound on the distance one update can move an entity.
pub const MOVE_LIMIT: i64 = 0x20_0000;

/// Walks the owning entity while movement keys are held.
#[derive(Clone, Copy, Debug, PartialEq, Eq, Structural)]
pub struct PlayerMovement {
    pub walk_speed: i64,
}

/// The horizontal direction the input asks for: left wins over right.
pub open spec fn move_dir_x(input: ReadOnlyInput) -> int {
    if input.is_left_pressed {
        -1
    } else if input.is_right_pressed {
        1
    } else {
        0
    }
}

/// The vertical direction the input asks for: up wins over down.
pub open spec fn move_dir_y(input: ReadOnlyInput) -> int {
    if input.is_up_pressed {
        1
    } else if input.is_down_pressed {
        -1
    } else {
        0
    }
}

/// The input asks for some movement.
pub open spec fn input_moves(input: ReadOnlyInput) -> bool {
    move_dir_x(input) != 0 || move_dir_y(input) != 0
}

/// How far one update walks along each pressed axis: the step constant
/// scaled by the walk speed and the frame delta, descaled twice.
pub open spec fn step_magnitude(walk_speed: i64, delta_time: i64) -> int {
    (((PLAYER_STEP * walk_speed) / (FP_ONE as int)) * delta_time) / (FP_ONE as int)
}

/// The walk distance of one update never exceeds [`MOVE_LIMIT`].
pub proof fn lemma_step_magnitude_bounds(walk_speed: i64, delta_time: i64)
    requires
        0 <= walk_speed <= MAX_WALK_SPEED,
        0 <= delta_time <= MAX_DELTA_TIME,
    ensures
        0 <= step_magnitude(walk_speed, delta_time) <= MOVE_LIMIT,
{
    assert(0 <= PLAYER_STEP * walk_speed <= 4588 * (64 * 65536 as int)) by (nonlinear_arith)
        requires
            0 <= walk_speed <= 64 * 65536,
            PLAYER_STEP == 4588,
    ;
    let s1 = (PLAYER_STEP * walk_speed) / (FP_ONE as int);
    vstd::arithmetic::div_mod::lemma_div_pos_is_pos(PLAYER_STEP * walk_speed, 65536);
    vstd::arithmetic::div_mod::lemma_div_is_ordered(
        PLAYER_STEP * walk_speed,
        4588 * (64 * 65536 as int),
        65536,
    );
    assert(4588 * (64 * 65536 as int) == (4588 * 64) * 65536) by (nonlinear_arith);
    vstd::arithmetic::div_mod::lemma_div_multiples_vanish((4588 * 64) as int, 65536);
    assert(0 <= s1 * delta_time <= (4588 * 64) * (4 * 65536 as int)) by (nonlinear_arith)
        requires
            0 <= s1 <= 4588 * 64,
            0 <= delta_time <= 4 * 65536,
    ;
    vstd::arithmetic::div_mod::lemma_div_pos_is_pos(s1 * delta_time, 65536);
    vstd::arithmetic::div_mod::lemma_div_is_ordered(
        s1 * delta_time,
        (4588 * 64) * (4 * 65536 as int),
        65536,
    );
    assert((4588 * 64) * (4 * 65536 as int) == (4588 * 64 * 4) * 65536) by (nonlinear_arith);
    vstd::arithmetic::div_mod::lemma_div_multiples_vanish((4588 * 64 * 4) as int, 65536);
}

/// Compute the walk distance for this frame; it never exceeds
/// [`MOVE_LIMIT`].
pub fn step_distance(walk_speed: i64, delta_time: i64) -> (r: i64)
    requires
        0 <= walk_speed <= MAX_WALK_SPEED,
        0 <= delta_time <= MAX_DELTA_TIME,
    ensures
        r == step_magnitude(walk_speed, delta_time),
        0 <= r <= MOVE_LIMIT,
{
    proof {
        assert((PLAYER_STEP as u64) * (walk_speed as u64) == PLAYER_STEP * walk_speed)
            by (nonlinear_arith)
            requires
                0 <= walk_speed,
                PLAYER_STEP == 4588,
        ;
        assert(PLAYER_STEP * walk_speed <= 4588 * (64 * 65536 as int)) by (nonlinear_arith)
            requires
                0 <= walk_speed <= 64 * 65536,
                PLAYER_STEP == 4588,
        ;
    }
    let scaled: u64 = (PLAYER_STEP as u64) * (walk_speed as u64);
    let per_second: u64 = scaled / 65536;
    proof {
        vstd::arithmetic::div_mod::lemma_div_pos_is_pos(scaled as int, 65536);
        vstd::arithmetic::div_mod::lemma_div_is_ordered(
            scaled as int,
            4588 * (64 * 65536 as int),
            65536,
        );
        assert(4588 * (64 * 65536 as int) == (4588 * 64) * 65536) by (nonlinear_arith);
        vstd::arithmetic::div_mod::lemma_div_multiples_vanish((4588 * 64) as int, 65536);
        assert((per_second as u64) * (delta_time as u64) == (per_second as int) * (
        delta_time as int)) by (nonlinear_arith)
            requires
                0 <= delta_time,
        ;
        assert((per_second as int) * (delta_time as int) <= (4588 * 64) * (4 * 65536 as int))
            by (nonlinear_arith)
            requires
                0 <= per_second <= 4588 * 64,
                0 <= delta_time <= 4 * 65536,
        ;
    }
    let this_frame: u64 = per_second * (delta_time as u64);
    let r: u64 = this_frame / 65536;
    proof {
        vstd::arithmetic::div_mod::lemma_div_pos_is_pos(this_frame as int, 65536);
        vstd::arithmetic::div_mod::lemma_div_is_ordered(
            this_frame as int,
            (4588 * 64) * (4 * 65536 as int),
            65536,
        );
        assert((4588 * 64) * (4 * 65536 as int) == (4588 * 64 * 4) * 65536) by (nonlinear_arith);
        vstd::arithmetic::div_mod::lemma_div_multiples_vanish((4588 * 64 * 4) as int, 65536);
        assert(4588 * 64 * 4 <= MOVE_LIMIT);
    }
    r as i64
}

} // verus!
