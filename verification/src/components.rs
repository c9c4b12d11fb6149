//! Entity behaviors. Behaviors are a closed sum of known kinds dispatched
//! through one update function; each gets mutable access to its entity
//! and to the shared render buffers, plus the frame's input snapshot and
//! delta time.

pub mod player_movement;

use vstd::prelude::*;

use crate::components::player_movement::{input_moves, move_dir_x, move_dir_y, step_distance,
    step_magnitude, PlayerMovement, MAX_DELTA_TIME, MAX_WALK_SPEED, MOVE_LIMIT};
use crate::entity::Entity;
use crate::graphics::sprite::Sprite;
use crate::graphics::vertex::RenderVertex;
use crate::graphics::{slot_renders_entity, RenderBuffers};
use crate::input::ReadOnlyInput;
use crate::math::{quat_in_bounds, vec2_in_bounds, Vec2, COORD_LIMIT};

verus! {

/// The behaviors an entity can own.
#[derive(Clone, Copy, Debug, PartialEq, Eq, Structural)]
pub enum ComponentKind {
    PlayerMovement(PlayerMovement),
}

/// The component's parameters are inside the supported ranges.
pub open spec fn component_walk_ok(c: ComponentKind) -> bool {
    match c {
        ComponentKind::PlayerMovement(p) => 0 <= p.walk_speed <= MAX_WALK_SPEED,
    }
}

/// Whether this component moves its entity (and therefore rewrites the
/// entity's vertex slot) under the given input.
pub open spec fn component_moves(c: ComponentKind, input: ReadOnlyInput) -> bool {
    match c {
        ComponentKind::PlayerMovement(_) => input_moves(input),
    }
}

/// How far this component shifts its entity along `x` in one update.
pub open spec fn component_step_x(c: ComponentKind, input: ReadOnlyInput, delta_time: i64) -> int {
    match c {
        ComponentKind::PlayerMovement(p) => move_dir_x(input) * step_magnitude(
            p.walk_speed,
            delta_time,
        ),
    }
}

/// How far this component shifts its entity along `y` in one update.
pub open spec fn component_step_y(c: ComponentKind, input: ReadOnlyInput, delta_time: i64) -> int {
    match c {
        ComponentKind::PlayerMovement(p) => move_dir_y(input) * step_magnitude(
            p.walk_speed,
            delta_time,
        ),
    }
}

/// One component update never shifts an entity by more than
/// [`MOVE_LIMIT`] along either axis.
pub proof fn lemma_component_step_bounded(c: ComponentKind, input: ReadOnlyInput, delta_time: i64)
    requires
        component_walk_ok(c),
        0 <= delta_time <= MAX_DELTA_TIME,
    ensures
        -MOVE_LIMIT <= component_step_x(c, input, delta_time) <= MOVE_LIMIT,
        -MOVE_LIMIT <= component_step_y(c, input, delta_time) <= MOVE_LIMIT,
{
    match c {
        ComponentKind::PlayerMovement(p) => {
            crate::components::player_movement::lemma_step_magnitude_bounds(
                p.walk_speed,
                delta_time,
            );
            let mag = step_magnitude(p.walk_speed, delta_time);
            assert(-mag <= move_dir_x(input) * mag <= mag) by (nonlinear_arith)
                requires
                    -1 <= move_dir_x(input) <= 1,
                    0 <= mag,
            ;
            assert(-mag <= move_dir_y(input) * mag <= mag) by (nonlinear_arith)
                requires
                    -1 <= move_dir_y(input) <= 1,
                    0 <= mag,
            ;
        },
    }
}

impl ComponentKind {
    /// Run this behavior once: shift the entity by its movement for this
    /// frame and, if it moved, immediately rewrite the entity's vertex
    /// slot — and nothing else — in the shared buffers.
    pub fn update(
        &self,
        entity: &mut Entity,
        input: &ReadOnlyInput,
        delta_time: i64,
        buffers: &mut RenderBuffers,
    )
        requires
            component_walk_ok(*self),
            0 <= delta_time <= MAX_DELTA_TIME,
            quat_in_bounds(old(entity).rotation),
            -COORD_LIMIT + MOVE_LIMIT <= old(entity).position.x <= COORD_LIMIT - MOVE_LIMIT,
            -COORD_LIMIT + MOVE_LIMIT <= old(entity).position.y <= COORD_LIMIT - MOVE_LIMIT,
            old(buffers).wf(),
            old(entity).id < old(buffers).max_entities,
        ensures
            final(entity).id == old(entity).id,
            final(entity).rotation == old(entity).rotation,
            final(entity).sorting_layer == old(entity).sorting_layer,
            final(entity).sprite_mat == old(entity).sprite_mat,
            final(entity).collider == old(entity).collider,
            final(entity).components@ == old(entity).components@,
            final(entity).position.x == old(entity).position.x + component_step_x(
                *self,
                *input,
                delta_time,
            ),
            final(entity).position.y == old(entity).position.y + component_step_y(
                *self,
                *input,
                delta_time,
            ),
            vec2_in_bounds(final(entity).position),
            final(buffers).wf(),
            final(buffers).max_entities == old(buffers).max_entities,
            final(buffers).index_data@ == old(buffers).index_data@,
            final(buffers).camera_uniform == old(buffers).camera_uniform,
            final(buffers).vertex_data@.len() == old(buffers).vertex_data@.len(),
            component_moves(*self, *input) ==> slot_renders_entity(
                final(buffers).vertex_data@,
                old(entity).id as int,
                final(entity).position,
                old(entity).rotation,
            ),
            component_moves(*self, *input) ==> forall|j: int|
                0 <= j < old(buffers).vertex_data@.len() && !(4 * old(entity).id <= j < 4 * old(
                    entity,
                ).id + 4) ==> final(buffers).vertex_data@[j] == old(buffers).vertex_data@[j],
            !component_moves(*self, *input) ==> final(buffers).vertex_data@ == old(
                buffers,
            ).vertex_data@,
    {
        match self {
            ComponentKind::PlayerMovement(p) => {
                let dir_x: i64 = if input.is_left_pressed() {
                    -1
                } else if input.is_right_pressed() {
                    1
                } else {
                    0
                };
                let dir_y: i64 = if input.is_up_pressed() {
                    1
                } else if input.is_down_pressed() {
                    -1
                } else {
                    0
                };
                if dir_x == 0 && dir_y == 0 {
                    return ;
                }
                let mag: i64 = step_distance(p.walk_speed, delta_time);
                proof {
                    assert(-mag <= dir_x * mag <= mag) by (nonlinear_arith)
                        requires
                            -1 <= dir_x <= 1,
                            0 <= mag,
                    ;
                    assert(-mag <= dir_y * mag <= mag) by (nonlinear_arith)
                        requires
                            -1 <= dir_y <= 1,
                            0 <= mag,
                    ;
                }
                let movement: Vec2 = Vec2 { x: dir_x * mag, y: dir_y * mag };
                entity.move_by(movement);
                let template = Sprite::get_vertices();
                let verts: Vec<RenderVertex> = RenderVertex::new(
                    entity.get_position(),
                    entity.get_rotation(),
                    template.as_slice(),
                );
                buffers.write_entity(entity.get_id(), verts);
                proof {
                    let id = entity.id as int;
                    let buf = buffers.vertex_data@;
                    assert forall|k: int| 0 <= k < 4 implies {
                        &&& (#[trigger] buf[4 * id + k]).position
                            == crate::graphics::sprite::template_vertices()[k].position
                        &&& buf[4 * id + k].tex_coords
                            == crate::graphics::sprite::template_vertices()[k].tex_coords
                        &&& crate::math::is_entity_transform(
                            buf[4 * id + k].transform,
                            entity.position,
                            entity.rotation,
                        )
                    } by {
                        assert(crate::graphics::slot_of(buf, id)[k] == buf[4 * id + k]);
                        assert(crate::graphics::slot_of(buf, id)[k] == verts@[k]);
                    }
                }
            },
        }
    }
}

} // verus!
