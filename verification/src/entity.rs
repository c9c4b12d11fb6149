//! Entity records. An entity's identity is a small integer, unique among
//! live entities and never reused while it is alive; it is the sole key
//! from which the entity's vertex-buffer byte range is computed.

use vstd::prelude::*;

use crate::components::{component_moves, component_step_x, component_step_y, component_walk_ok,
    ComponentKind};
use crate::components::player_movement::{MAX_DELTA_TIME, MOVE_LIMIT};
use crate::graphics::sorting_layer::SortingLayer;
use crate::graphics::{slot_renders_entity, RenderBuffers};
use crate::input::ReadOnlyInput;
use crate::math::{quat_in_bounds, vec2_in_bounds, Quat, Vec2, COORD_LIMIT};
use crate::physics::collider::Collider;

verus! {

/// A live game entity.
pub struct Entity {
    pub id: usize,
    pub collider: Option<Collider>,
    pub components: Vec<ComponentKind>,
    pub position: Vec2,
    pub rotation: Quat,
    pub sorting_layer: SortingLayer,
    pub sprite_mat: usize,
}

/// Every component's parameters are inside the supported ranges.
pub open spec fn components_ok(comps: Seq<ComponentKind>) -> bool {
    forall|i: int| 0 <= i < comps.len() ==> component_walk_ok(#[trigger] comps[i])
}

/// Whether any of the components moves its entity under this input, in
/// which case the entity's vertex slot is rewritten.
pub open spec fn any_moves(comps: Seq<ComponentKind>, input: ReadOnlyInput) -> bool
    decreases comps.len(),
{
    if comps.len() == 0 {
        false
    } else {
        any_moves(comps.drop_last(), input) || component_moves(comps.last(), input)
    }
}

/// The entity position after every component has applied its movement, in
/// attachment order.
pub open spec fn position_after(
    comps: Seq<ComponentKind>,
    px: int,
    py: int,
    input: ReadOnlyInput,
    delta_time: i64,
) -> (int, int)
    decreases comps.len(),
{
    if comps.len() == 0 {
        (px, py)
    } else {
        let prev = position_after(comps.drop_last(), px, py, input, delta_time);
        (
            prev.0 + component_step_x(comps.last(), input, delta_time),
            prev.1 + component_step_y(comps.last(), input, delta_time),
        )
    }
}

/// When no component moves under this input, a frame of updates leaves
/// the position exactly where it was.
pub proof fn lemma_no_moves_no_position_change(
    comps: Seq<ComponentKind>,
    px: int,
    py: int,
    input: ReadOnlyInput,
    delta_time: i64,
)
    requires
        !any_moves(comps, input),
    ensures
        position_after(comps, px, py, input, delta_time) == (px, py),
    decreases comps.len(),
{
    if comps.len() > 0 {
        lemma_no_moves_no_position_change(comps.drop_last(), px, py, input, delta_time);
    }
}

impl Entity {
    /// Construct a record for a fresh identity. The caller supplies an
    /// identity that is not live; the owning scene assigns identities
    /// monotonically and checks for collisions before registering.
    pub fn create(
        id: usize,
        position: Vec2,
        rotation: Quat,
        sprite_mat: usize,
        sorting_layer: SortingLayer,
        collider: Option<Collider>,
    ) -> (e: Entity)
        ensures
            e.id == id,
            e.position == position,
            e.rotation == rotation,
            e.sprite_mat == sprite_mat,
            e.sorting_layer == sorting_layer,
            e.collider == collider,
            e.components@.len() == 0,
    {
        Entity {
            collider,
            components: Vec::new(),
            id,
            position,
            rotation,
            sorting_layer,
            sprite_mat,
        }
    }

    pub fn get_id(&self) -> (r: usize)
        ensures
            r == self.id,
    {
        self.id
    }

    pub fn get_position(&self) -> (r: Vec2)
        ensures
            r == self.position,
    {
        self.position
    }

    pub fn get_rotation(&self) -> (r: Quat)
        ensures
            r == self.rotation,
    {
        self.rotation
    }

    pub fn get_sorting_layer(&self) -> (r: SortingLayer)
        ensures
            r == self.sorting_layer,
    {
        self.sorting_layer
    }

    /// Shift the position by vector addition. This does not touch any
    /// buffer: pushing the new vertex data is the caller's move, so that
    /// movement and rendering sync stay decoupled.
    pub fn move_by(&mut self, offset: Vec2)
        requires
            -COORD_LIMIT <= old(self).position.x + offset.x <= COORD_LIMIT,
            -COORD_LIMIT <= old(self).position.y + offset.y <= COORD_LIMIT,
        ensures
            final(self).position.x == old(self).position.x + offset.x,
            final(self).position.y == old(self).position.y + offset.y,
            final(self).id == old(self).id,
            final(self).rotation == old(self).rotation,
            final(self).sorting_layer == old(self).sorting_layer,
            final(self).sprite_mat == old(self).sprite_mat,
            final(self).collider == old(self).collider,
            final(self).components@ == old(self).components@,
    {
        self.position = Vec2 { x: self.position.x + offset.x, y: self.position.y + offset.y };
    }

    /// Attach a behavior; behaviors run in attachment order.
    pub fn add_component(&mut self, component: ComponentKind)
        ensures
            final(self).components@ == old(self).components@.push(component),
            final(self).id == old(self).id,
            final(self).position == old(self).position,
            final(self).rotation == old(self).rotation,
            final(self).sorting_layer == old(self).sorting_layer,
            final(self).sprite_mat == old(self).sprite_mat,
            final(self).collider == old(self).collider,
    {
        self.components.push(component);
    }

    /// Run every attached behavior once, in attachment order. Each may
    /// move the entity and push the entity's new vertex data into the
    /// shared buffers; nothing outside the entity's own slot is written.
    pub fn update(
        &mut self,
        input: &ReadOnlyInput,
        delta_time: i64,
        buffers: &mut RenderBuffers,
    )
        requires
            components_ok(old(self).components@),
            0 <= delta_time <= MAX_DELTA_TIME,
            quat_in_bounds(old(self).rotation),
            -COORD_LIMIT + old(self).components@.len() * MOVE_LIMIT <= old(self).position.x
                <= COORD_LIMIT - old(self).components@.len() * MOVE_LIMIT,
            -COORD_LIMIT + old(self).components@.len() * MOVE_LIMIT <= old(self).position.y
                <= COORD_LIMIT - old(self).components@.len() * MOVE_LIMIT,
            old(buffers).wf(),
            old(self).id < old(buffers).max_entities,
        ensures
            final(self).id == old(self).id,
            final(self).rotation == old(self).rotation,
            final(self).sorting_layer == old(self).sorting_layer,
            final(self).sprite_mat == old(self).sprite_mat,
            final(self).collider == old(self).collider,
            final(self).components@ == old(self).components@,
            (final(self).position.x as int, final(self).position.y as int) == position_after(
                old(self).components@,
                old(self).position.x as int,
                old(self).position.y as int,
                *input,
                delta_time,
            ),
            vec2_in_bounds(final(self).position),
            final(buffers).wf(),
            final(buffers).max_entities == old(buffers).max_entities,
            final(buffers).index_data@ == old(buffers).index_data@,
            final(buffers).camera_uniform == old(buffers).camera_uniform,
            final(buffers).vertex_data@.len() == old(buffers).vertex_data@.len(),
            any_moves(old(self).components@, *input) ==> slot_renders_entity(
                final(buffers).vertex_data@,
                old(self).id as int,
                final(self).position,
                old(self).rotation,
            ),
            any_moves(old(self).components@, *input) ==> forall|j: int|
                0 <= j < old(buffers).vertex_data@.len() && !(4 * old(self).id <= j < 4 * old(
                    self,
                ).id + 4) ==> final(buffers).vertex_data@[j] == old(buffers).vertex_data@[j],
            !any_moves(old(self).components@, *input) ==> final(buffers).vertex_data@ == old(
                buffers,
            ).vertex_data@,
    {
        let ghost comps = self.components@;
        let ghost p0x = self.position.x as int;
        let ghost p0y = self.position.y as int;
        let ghost buf0 = buffers.vertex_data@;
        let n: usize = self.components.len();
        let mut i: usize = 0;
        while i < n
            invariant
                i <= n,
                n == comps.len(),
                components_ok(comps),
                0 <= delta_time <= MAX_DELTA_TIME,
                self.components@ == comps,
                quat_in_bounds(self.rotation),
                (self.position.x as int, self.position.y as int) == position_after(
                    comps.take(i as int),
                    p0x,
                    p0y,
                    *input,
                    delta_time,
                ),
                -COORD_LIMIT + (n - i) * MOVE_LIMIT <= self.position.x <= COORD_LIMIT - (n - i)
                    * MOVE_LIMIT,
                -COORD_LIMIT + (n - i) * MOVE_LIMIT <= self.position.y <= COORD_LIMIT - (n - i)
                    * MOVE_LIMIT,
                self.id == old(self).id,
                self.rotation == old(self).rotation,
                self.sorting_layer == old(self).sorting_layer,
                self.sprite_mat == old(self).sprite_mat,
                self.collider == old(self).collider,
                buffers.wf(),
                buffers.max_entities == old(buffers).max_entities,
                buffers.index_data@ == old(buffers).index_data@,
                buffers.camera_uniform == old(buffers).camera_uniform,
                buffers.vertex_data@.len() == buf0.len(),
                self.id < buffers.max_entities,
                any_moves(comps.take(i as int), *input) ==> slot_renders_entity(
                    buffers.vertex_data@,
                    self.id as int,
                    self.position,
                    self.rotation,
                ),
                any_moves(comps.take(i as int), *input) ==> forall|j: int|
                    0 <= j < buf0.len() && !(4 * self.id <= j < 4 * self.id + 4)
                        ==> buffers.vertex_data@[j] == buf0[j],
                !any_moves(comps.take(i as int), *input) ==> buffers.vertex_data@ == buf0,
            decreases n - i,
        {
            let c: ComponentKind = self.components[i];
            proof {
                assert(component_walk_ok(comps[i as int]));
                assert((n - i) * MOVE_LIMIT >= 1 * MOVE_LIMIT) by (nonlinear_arith)
                    requires
                        i < n,
                        MOVE_LIMIT > 0,
                ;
            }
            c.update(self, input, delta_time, buffers);
            i = i + 1;
            proof {
                crate::components::lemma_component_step_bounded(c, *input, delta_time);
                assert(comps.take(i as int).drop_last() =~= comps.take(i as int - 1));
                assert(comps.take(i as int).last() == comps[i as int - 1]);
                assert((n - i + 1) * MOVE_LIMIT == (n - i) * MOVE_LIMIT + MOVE_LIMIT)
                    by (nonlinear_arith);
            }
        }
        proof {
            assert(comps.take(n as int) =~= comps);
        }
    }
}

} // verus!
