//! The scene state: the entity registry, the materials, the camera and
//! the shared render buffers, with the per-frame update and the draw
//! plan.
//!
//! The registry is a sparse list indexed by entity identity: removing an
//! entity leaves a hole rather than shifting its successors, so every
//! other live entity keeps its identity and with it its vertex-buffer
//! byte range. Creation past the fixed buffer capacity is rejected
//! before anything is written.

use vstd::prelude::*;

use crate::camera::{camera_in_bounds, spec_view_projection, Camera, MIN_ZOOM};
use crate::components::player_movement::{MAX_DELTA_TIME, MOVE_LIMIT};
use crate::config::Config;
use crate::entity::{any_moves, components_ok, position_after, Entity};
use crate::graphics::sprite::Sprite;
use crate::graphics::vertex::RenderVertex;
use crate::graphics::{build_draw_list, command_matches, entries_below, group_by_sorting_layer,
    layer_entries, lemma_group_partition, slot_renders_entity, DrawCommand, RenderBuffers};
use crate::graphics::sorting_layer::SortingLayer;
use crate::graphics::material::Material;
use crate::input::ReadOnlyInput;
use crate::math::{quat_in_bounds, vec2_in_bounds, Quat, Vec2, COORD_LIMIT, FP_ONE};
use crate::physics::collider::Collider;

verus! {

/// Why an entity operation was refused.
#[derive(Clone, Copy, Debug, PartialEq, Eq, Structural)]
pub enum SceneError {
    /// Creating the entity would exceed the fixed buffer capacity.
    CapacityExceeded,
    /// The supplied identity is already live.
    IdentityCollision,
    /// The identity does not name a live entity.
    EntityNotFound,
}

/// `id` names a live entity of the registry `s`.
pub open spec fn live(s: Seq<Option<Entity>>, id: int) -> bool {
    0 <= id < s.len() && s[id] is Some
}

/// The position margins one whole update needs: every component may move
/// the entity by at most `MOVE_LIMIT` along each axis.
pub open spec fn update_margins(e: Entity) -> bool {
    &&& -COORD_LIMIT + e.components@.len() * MOVE_LIMIT <= e.position.x <= COORD_LIMIT
        - e.components@.len() * MOVE_LIMIT
    &&& -COORD_LIMIT + e.components@.len() * MOVE_LIMIT <= e.position.y <= COORD_LIMIT
        - e.components@.len() * MOVE_LIMIT
}

/// `e_new` is `e_old` after one frame of component updates: everything
/// but the position is kept, and the position has every component's
/// movement applied in attachment order.
pub open spec fn entity_updated(
    e_old: Entity,
    e_new: Entity,
    input: ReadOnlyInput,
    delta_time: i64,
) -> bool {
    &&& e_new.id == e_old.id
    &&& e_new.rotation == e_old.rotation
    &&& e_new.sorting_layer == e_old.sorting_layer
    &&& e_new.sprite_mat == e_old.sprite_mat
    &&& e_new.collider == e_old.collider
    &&& e_new.components@ == e_old.components@
    &&& (e_new.position.x as int, e_new.position.y as int) == position_after(
        e_old.components@,
        e_old.position.x as int,
        e_old.position.y as int,
        input,
        delta_time,
    )
    &&& vec2_in_bounds(e_new.position)
}

/// Byte `j` of the vertex buffer belongs to a slot some component update
/// rewrote this frame: its entity, at an index below `upto`, is live and
/// asked to move.
pub open spec fn moved_slot_prefix(
    s: Seq<Option<Entity>>,
    input: ReadOnlyInput,
    j: int,
    upto: int,
) -> bool {
    exists|i: int| 0 <= i < upto && ((#[trigger] s[i]) matches Some(e) && any_moves(
        e.components@,
        input,
    ) && 4 * i <= j < 4 * i + 4)
}

/// Record `j` of the vertex buffer belongs to an entity that moved this
/// frame.
pub open spec fn moved_slot(s: Seq<Option<Entity>>, input: ReadOnlyInput, j: int) -> bool {
    moved_slot_prefix(s, input, j, s.len() as int)
}

/// The scene: everything a frame reads and writes.
pub struct State {
    pub camera: Camera,
    pub config: Config,
    pub input: ReadOnlyInput,
    pub size: (u32, u32),
    pub graphics: RenderBuffers,
    pub materials: Vec<Material>,
    pub entities: Vec<Option<Entity>>,
}

impl State {
    /// The scene invariant: the buffers are well formed and large enough
    /// for the registry, the camera is inside the projection's domain,
    /// and every live entity sits in the slot named by its identity with
    /// its geometry inside the coordinate range.
    ///
    /// Its last clause is the point of the whole design: the vertex
    /// buffer mirrors the registry. Every live entity's slot holds
    /// exactly the vertex data of its current position and rotation, at
    /// every moment between operations.
    pub open spec fn wf(self) -> bool {
        &&& self.graphics.wf()
        &&& camera_in_bounds(self.camera)
        &&& self.entities@.len() <= self.graphics.max_entities
        &&& forall|i: int| 0 <= i < self.entities@.len() ==> ((#[trigger] self.entities@[i])
            matches Some(e) ==> {
            &&& e.id == i
            &&& vec2_in_bounds(e.position)
            &&& quat_in_bounds(e.rotation)
            &&& components_ok(e.components@)
        })
        &&& forall|i: int| 0 <= i < self.entities@.len() ==> ((#[trigger] self.entities@[i])
            matches Some(e) ==> slot_renders_entity(
            self.graphics.vertex_data@,
            i,
            e.position,
            e.rotation,
        ))
    }

    /// A fresh scene with no entities and no materials, its buffers
    /// allocated for `max_entities`.
    pub fn new(camera: Camera, config: Config, size: (u32, u32), max_entities: usize) -> (s: State)
        requires
            camera_in_bounds(camera),
            max_entities <= crate::graphics::MAX_CAPACITY,
        ensures
            s.wf(),
            s.camera == camera,
            s.config == config,
            s.size == size,
            s.graphics.max_entities == max_entities,
            s.entities@.len() == 0,
            s.materials@.len() == 0,
            !s.input.is_down_pressed,
            !s.input.is_left_pressed,
            !s.input.is_right_pressed,
            !s.input.is_up_pressed,
    {
        State {
            camera,
            config,
            input: ReadOnlyInput::new(),
            size,
            graphics: RenderBuffers::new(max_entities),
            materials: Vec::new(),
            entities: Vec::new(),
        }
    }

    /// How many registry slots exist, holes included; also the next
    /// fresh identity under monotonic assignment.
    pub fn num_entities(&self) -> (r: usize)
        ensures
            r == self.entities@.len(),
    {
        self.entities.len()
    }

    /// Register a material; entities reference it by the returned index.
    pub fn add_material(&mut self, material: Material) -> (r: usize)
        requires
            old(self).wf(),
        ensures
            final(self).wf(),
            r == old(self).materials@.len(),
            final(self).materials@ == old(self).materials@.push(material),
            final(self).camera == old(self).camera,
            final(self).config == old(self).config,
            final(self).input == old(self).input,
            final(self).size == old(self).size,
            final(self).graphics == old(self).graphics,
            final(self).entities@ == old(self).entities@,
    {
        let r: usize = self.materials.len();
        self.materials.push(material);
        r
    }

    /// Register a fully built entity under its own identity and push its
    /// vertex data into the shared buffer.
    ///
    /// An identity at or past the buffer capacity is rejected before
    /// anything is written, as is an identity that is already live; on
    /// rejection the scene — buffers included — is exactly as it was.
    pub fn add_entity(&mut self, entity: Entity) -> (r: Result<usize, SceneError>)
        requires
            old(self).wf(),
            vec2_in_bounds(entity.position),
            quat_in_bounds(entity.rotation),
            components_ok(entity.components@),
        ensures
            final(self).wf(),
            final(self).camera == old(self).camera,
            final(self).config == old(self).config,
            final(self).input == old(self).input,
            final(self).size == old(self).size,
            final(self).materials@ == old(self).materials@,
            final(self).graphics.max_entities == old(self).graphics.max_entities,
            final(self).graphics.index_data@ == old(self).graphics.index_data@,
            final(self).graphics.camera_uniform == old(self).graphics.camera_uniform,
            r == Err::<usize, SceneError>(SceneError::CapacityExceeded) <==> entity.id >= old(self).graphics.max_entities,
            r is Ok <==> (entity.id < old(self).graphics.max_entities && !live(
                old(self).entities@,
                entity.id as int,
            )),
            r == Err::<usize, SceneError>(SceneError::IdentityCollision) <==> (entity.id < old(self).graphics.max_entities && live(old(self).entities@, entity.id as int)),
            r is Err ==> *final(self) == *old(self),
            r matches Ok(id) ==> {
                &&& id == entity.id
                &&& entity.id < old(self).graphics.max_entities
                &&& !live(old(self).entities@, entity.id as int)
                &&& final(self).entities@.len() == if entity.id < old(self).entities@.len() {
                    old(self).entities@.len() as int
                } else {
                    entity.id + 1
                }
                &&& final(self).entities@[entity.id as int] == Some(entity)
                &&& forall|i: int| 0 <= i < old(self).entities@.len() && i != entity.id
                    ==> final(self).entities@[i] == old(self).entities@[i]
                &&& forall|i: int| old(self).entities@.len() <= i < final(self).entities@.len()
                    && i != entity.id ==> final(self).entities@[i] is None
                &&& slot_renders_entity(
                    final(self).graphics.vertex_data@,
                    entity.id as int,
                    entity.position,
                    entity.rotation,
                )
                &&& forall|j: int| 0 <= j < old(self).graphics.vertex_data@.len() && !(4
                    * entity.id <= j < 4 * entity.id + 4) ==> final(self).graphics.vertex_data@[j]
                    == old(self).graphics.vertex_data@[j]
                &&& final(self).graphics.vertex_data@.len() == old(self).graphics.vertex_data@.len()
            },
    {
        let id: usize = entity.get_id();
        if id >= self.graphics.max_entities {
            return Err(SceneError::CapacityExceeded);
        }
        if id < self.entities.len() {
            if self.entities[id].is_some() {
                return Err(SceneError::IdentityCollision);
            }
        }
        let template = Sprite::get_vertices();
        let verts: Vec<RenderVertex> = RenderVertex::new(
            entity.get_position(),
            entity.get_rotation(),
            template.as_slice(),
        );
        self.graphics.write_entity(id, verts);
        proof {
            let buf = self.graphics.vertex_data@;
            assert forall|k: int| 0 <= k < 4 implies {
                &&& (#[trigger] buf[4 * id + k]).position
                    == crate::graphics::sprite::template_vertices()[k].position
                &&& buf[4 * id + k].tex_coords
                    == crate::graphics::sprite::template_vertices()[k].tex_coords
                &&& crate::math::is_entity_transform(
                    buf[4 * id + k].transform,
                    entity.position,
                    entity.rotation,
                )
            } by {
                assert(crate::graphics::slot_of(buf, id as int)[k] == buf[4 * id + k]);
            }
        }
        let ghost mid = *self;
        while self.entities.len() < id
            invariant
                self.entities@.len() <= id || self.entities@.len() == old(self).entities@.len(),
                forall|i: int| 0 <= i < old(self).entities@.len() ==> self.entities@[i] == old(self).entities@[i],
                old(self).entities@.len() <= self.entities@.len(),
                forall|i: int| old(self).entities@.len() <= i < self.entities@.len()
                    ==> self.entities@[i] is None,
                self.camera == mid.camera,
                self.config == mid.config,
                self.input == mid.input,
                self.size == mid.size,
                self.materials == mid.materials,
                self.graphics == mid.graphics,
            decreases id - self.entities@.len(),
        {
            self.entities.push(None);
        }
        if self.entities.len() == id {
            self.entities.push(Some(entity));
        } else {
            self.entities.set(id, Some(entity));
        }
        Ok(id)
    }

    /// Create and register an entity under the next fresh identity (the
    /// current slot count) and push its vertex data into the shared
    /// buffer. Fails only when the registry has reached the buffer
    /// capacity, and then changes nothing.
    pub fn create_entity(
        &mut self,
        position: Vec2,
        rotation: Quat,
        sprite_mat: usize,
        sorting_layer: SortingLayer,
        collider: Option<Collider>,
    ) -> (r: Result<usize, SceneError>)
        requires
            old(self).wf(),
            vec2_in_bounds(position),
            quat_in_bounds(rotation),
        ensures
            final(self).wf(),
            r is Ok <==> old(self).entities@.len() < old(self).graphics.max_entities,
            r is Err ==> *final(self) == *old(self) && r == Err::<usize, SceneError>(
                SceneError::CapacityExceeded,
            ),
            r matches Ok(id) ==> {
                &&& id == old(self).entities@.len()
                &&& final(self).entities@.len() == old(self).entities@.len() + 1
                &&& final(self).entities@[id as int] matches Some(e) && e.id == id && e.position
                    == position && e.rotation == rotation && e.sprite_mat == sprite_mat
                    && e.sorting_layer == sorting_layer && e.collider == collider
                    && e.components@.len() == 0
                &&& forall|i: int| 0 <= i < old(self).entities@.len() ==> final(self).entities@[i] == old(self).entities@[i]
                &&& slot_renders_entity(
                    final(self).graphics.vertex_data@,
                    id as int,
                    position,
                    rotation,
                )
                &&& forall|j: int| 0 <= j < old(self).graphics.vertex_data@.len() && !(4 * id <= j
                    < 4 * id + 4) ==> final(self).graphics.vertex_data@[j] == old(self).graphics.vertex_data@[j]
            },
            final(self).camera == old(self).camera,
            final(self).config == old(self).config,
            final(self).input == old(self).input,
            final(self).size == old(self).size,
            final(self).materials@ == old(self).materials@,
            final(self).graphics.max_entities == old(self).graphics.max_entities,
            final(self).graphics.index_data@ == old(self).graphics.index_data@,
            final(self).graphics.camera_uniform == old(self).graphics.camera_uniform,
    {
        let id: usize = self.num_entities();
        let entity: Entity = Entity::create(
            id,
            position,
            rotation,
            sprite_mat,
            sorting_layer,
            collider,
        );
        self.add_entity(entity)
    }

    /// Shift a live entity and immediately rewrite its — and only its —
    /// vertex slot with the new transform. A dead or out-of-range
    /// identity changes nothing.
    pub fn move_entity(&mut self, id: usize, offset: Vec2) -> (r: Result<(), SceneError>)
        requires
            old(self).wf(),
            id < old(self).entities@.len() ==> (old(self).entities@[id as int] matches Some(e)
                ==> {
                &&& -COORD_LIMIT <= e.position.x + offset.x <= COORD_LIMIT
                &&& -COORD_LIMIT <= e.position.y + offset.y <= COORD_LIMIT
            }),
        ensures
            final(self).wf(),
            r is Ok <==> live(old(self).entities@, id as int),
            r is Err ==> *final(self) == *old(self) && r == Err::<(), SceneError>(
                SceneError::EntityNotFound,
            ),
            r is Ok ==> {
                &&& final(self).entities@.len() == old(self).entities@.len()
                &&& (old(self).entities@[id as int] matches Some(e) ==> final(self).entities@[id as int] matches Some(e2) && e2.id == e.id && e2.position.x
                    == e.position.x + offset.x && e2.position.y == e.position.y + offset.y
                    && e2.rotation == e.rotation && e2.sorting_layer == e.sorting_layer
                    && e2.sprite_mat == e.sprite_mat && e2.collider == e.collider
                    && e2.components@ == e.components@ && slot_renders_entity(
                    final(self).graphics.vertex_data@,
                    id as int,
                    e2.position,
                    e2.rotation,
                ))
                &&& forall|i: int| 0 <= i < old(self).entities@.len() && i != id ==> final(self).entities@[i] == old(self).entities@[i]
                &&& forall|j: int| 0 <= j < old(self).graphics.vertex_data@.len() && !(4 * id <= j
                    < 4 * id + 4) ==> final(self).graphics.vertex_data@[j] == old(self).graphics.vertex_data@[j]
                &&& final(self).graphics.vertex_data@.len() == old(self).graphics.vertex_data@.len()
            },
            final(self).camera == old(self).camera,
            final(self).config == old(self).config,
            final(self).input == old(self).input,
            final(self).size == old(self).size,
            final(self).materials@ == old(self).materials@,
            final(self).graphics.max_entities == old(self).graphics.max_entities,
            final(self).graphics.index_data@ == old(self).graphics.index_data@,
            final(self).graphics.camera_uniform == old(self).graphics.camera_uniform,
    {
        if id >= self.entities.len() {
            return Err(SceneError::EntityNotFound);
        }
        if !self.entities[id].is_some() {
            return Err(SceneError::EntityNotFound);
        }
        let mut slot: Option<Entity> = None;
        core::mem::swap(&mut slot, &mut self.entities[id]);
        match slot {
            None => Err(SceneError::EntityNotFound),
            Some(mut e) => {
                e.move_by(offset);
                let template = Sprite::get_vertices();
                let verts: Vec<RenderVertex> = RenderVertex::new(
                    e.get_position(),
                    e.get_rotation(),
                    template.as_slice(),
                );
                self.graphics.write_entity(id, verts);
                proof {
                    let buf = self.graphics.vertex_data@;
                    assert forall|k: int| 0 <= k < 4 implies {
                        &&& (#[trigger] buf[4 * id + k]).position
                            == crate::graphics::sprite::template_vertices()[k].position
                        &&& buf[4 * id + k].tex_coords
                            == crate::graphics::sprite::template_vertices()[k].tex_coords
                        &&& crate::math::is_entity_transform(
                            buf[4 * id + k].transform,
                            e.position,
                            e.rotation,
                        )
                    } by {
                        assert(crate::graphics::slot_of(buf, id as int)[k] == buf[4 * id + k]);
                    }
                }
                self.entities.set(id, Some(e));
                Ok(())
            },
        }
    }

    /// Clear a registry slot, leaving a hole: later identities keep
    /// their slots and buffer ranges. The buffers are not touched; the
    /// stale vertex data is simply never drawn again. Returns whether
    /// the identity was live.
    pub fn remove_entity(&mut self, id: usize) -> (r: bool)
        requires
            old(self).wf(),
        ensures
            final(self).wf(),
            r == live(old(self).entities@, id as int),
            final(self).entities@.len() == old(self).entities@.len(),
            id < old(self).entities@.len() ==> final(self).entities@[id as int] is None,
            forall|i: int| 0 <= i < old(self).entities@.len() && i != id ==> final(self).entities@[i] == old(self).entities@[i],
            final(self).camera == old(self).camera,
            final(self).config == old(self).config,
            final(self).input == old(self).input,
            final(self).size == old(self).size,
            final(self).materials@ == old(self).materials@,
            final(self).graphics == old(self).graphics,
    {
        if id >= self.entities.len() {
            return false;
        }
        let r: bool = self.entities[id].is_some();
        self.entities.set(id, None);
        r
    }

    /// Recompute the camera's aspect ratio from a new output size. A
    /// degenerate size, or one whose aspect would leave the projection's
    /// domain, is ignored.
    pub fn resize(&mut self, width: u32, height: u32)
        requires
            old(self).wf(),
        ensures
            final(self).wf(),
            final(self).camera.position == old(self).camera.position,
            final(self).camera.scale == old(self).camera.scale,
            final(self).camera.znear == old(self).camera.znear,
            final(self).camera.zfar == old(self).camera.zfar,
            width > 0 && height > 0 && MIN_ZOOM <= (width * FP_ONE) / (height as int)
                <= COORD_LIMIT ==> final(self).camera.aspect == (width * FP_ONE) / (height as int)
                && final(self).size == (width, height),
            !(width > 0 && height > 0 && MIN_ZOOM <= (width * FP_ONE) / (height as int)
                <= COORD_LIMIT) ==> *final(self) == *old(self),
            final(self).config == old(self).config,
            final(self).input == old(self).input,
            final(self).materials@ == old(self).materials@,
            final(self).entities@ == old(self).entities@,
            final(self).graphics == old(self).graphics,
    {
        if width > 0 && height > 0 {
            let w: u64 = (width as u64) * 65536;
            let aspect: u64 = w / (height as u64);
            proof {
                assert(w == width * FP_ONE);
            }
            if aspect >= (MIN_ZOOM as u64) && aspect <= (COORD_LIMIT as u64) {
                self.camera.resize(width, height);
                self.size = (width, height);
            }
        }
    }

    /// Run one frame of component updates: store the input snapshot, let
    /// every live entity run its behaviors in registry order (each may
    /// move its entity and rewrite that entity's vertex slot), then push
    /// the camera matrix to the uniform. Slots of entities that did not
    /// move keep their vertex data untouched.
    pub fn update(&mut self, input: ReadOnlyInput, delta_time: i64)
        requires
            old(self).wf(),
            0 <= delta_time <= MAX_DELTA_TIME,
            forall|i: int| 0 <= i < old(self).entities@.len() ==> ((#[trigger] old(self).entities@[i]) matches Some(e) ==> update_margins(e)),
        ensures
            final(self).wf(),
            final(self).camera == old(self).camera,
            final(self).config == old(self).config,
            final(self).size == old(self).size,
            final(self).materials@ == old(self).materials@,
            final(self).input == input,
            final(self).entities@.len() == old(self).entities@.len(),
            forall|i: int| 0 <= i < old(self).entities@.len() ==> (old(self).entities@[i] is None
                ==> final(self).entities@[i] is None),
            forall|i: int| 0 <= i < old(self).entities@.len() ==> ((#[trigger] old(self).entities@[i]) matches Some(e) ==> (final(self).entities@[i] matches Some(e2)
                && entity_updated(e, e2, input, delta_time))),
            final(self).graphics.max_entities == old(self).graphics.max_entities,
            final(self).graphics.index_data@ == old(self).graphics.index_data@,
            final(self).graphics.camera_uniform.view_proj == spec_view_projection(
                old(self).camera,
            ),
            final(self).graphics.vertex_data@.len() == old(self).graphics.vertex_data@.len(),
            forall|j: int| 0 <= j < old(self).graphics.vertex_data@.len() && !moved_slot(
                old(self).entities@,
                input,
                j,
            ) ==> final(self).graphics.vertex_data@[j] == old(self).graphics.vertex_data@[j],
            forall|i: int| 0 <= i < old(self).entities@.len() ==> ((#[trigger] old(self).entities@[i]) matches Some(e) ==> (any_moves(e.components@, input) ==> (final(self).entities@[i] matches Some(e2) && slot_renders_entity(
                final(self).graphics.vertex_data@,
                i,
                e2.position,
                e2.rotation,
            )))),
    {
        self.input = input;
        let ghost s0 = old(self).entities@;
        let ghost buf0 = old(self).graphics.vertex_data@;
        let n: usize = self.entities.len();
        let mut i: usize = 0;
        while i < n
            invariant
                i <= n,
                n == s0.len(),
                0 <= delta_time <= MAX_DELTA_TIME,
                self.entities@.len() == n,
                self.wf(),
                self.camera == old(self).camera,
                self.config == old(self).config,
                self.size == old(self).size,
                self.materials@ == old(self).materials@,
                self.input == input,
                forall|k: int| 0 <= k < s0.len() ==> ((#[trigger] s0[k]) matches Some(e)
                    ==> update_margins(e)),
                forall|k: int| i <= k < n ==> self.entities@[k] == s0[k],
                forall|k: int| 0 <= k < i ==> (s0[k] is None ==> self.entities@[k] is None),
                forall|k: int| 0 <= k < i ==> ((#[trigger] s0[k]) matches Some(e) ==> (
                self.entities@[k] matches Some(e2) && entity_updated(e, e2, input, delta_time))),
                self.graphics.max_entities == old(self).graphics.max_entities,
                self.graphics.index_data@ == old(self).graphics.index_data@,
                self.graphics.camera_uniform == old(self).graphics.camera_uniform,
                self.graphics.vertex_data@.len() == buf0.len(),
                forall|j: int| 0 <= j < buf0.len() && !moved_slot_prefix(s0, input, j, i as int)
                    ==> self.graphics.vertex_data@[j] == buf0[j],
                forall|k: int| 0 <= k < i ==> ((#[trigger] s0[k]) matches Some(e) ==> (any_moves(
                    e.components@,
                    input,
                ) ==> (self.entities@[k] matches Some(e2) && slot_renders_entity(
                    self.graphics.vertex_data@,
                    k,
                    e2.position,
                    e2.rotation,
                )))),
            decreases n - i,
        {
            let ghost pre = *self;
            let mut slot: Option<Entity> = None;
            core::mem::swap(&mut slot, &mut self.entities[i]);
            match slot {
                None => {
                    proof {
                        assert(s0[i as int] is None);
                        assert forall|k: int| 0 <= k < n implies self.entities@[k]
                            == pre.entities@[k] by {}
                    }
                },
                Some(mut e) => {
                    let ghost e_old = e;
                    proof {
                        let ii = i as int;
                        assert(s0[ii] == Some(e_old));
                        assert(pre.entities@[ii] == Some(e_old));
                        assert(update_margins(e_old));
                        assert(e_old.id == ii);
                        assert(components_ok(e_old.components@));
                        assert(quat_in_bounds(e_old.rotation));
                    }
                    e.update(&input, delta_time, &mut self.graphics);
                    self.entities.set(i, Some(e));
                    proof {
                        let ii = i as int;
                        let moved = any_moves(e_old.components@, input);
                        let buf_pre = pre.graphics.vertex_data@;
                        let buf_new = self.graphics.vertex_data@;
                        // Slots other than this entity's kept their contents.
                        assert forall|j: int| 0 <= j < buf0.len() && !moved_slot_prefix(
                            s0,
                            input,
                            j,
                            ii + 1,
                        ) implies buf_new[j] == buf0[j] by {
                            if moved_slot_prefix(s0, input, j, ii) {
                                let w = choose|w: int| 0 <= w < ii && ((#[trigger] s0[w])
                                    matches Some(ew) && any_moves(ew.components@, input) && 4 * w
                                    <= j < 4 * w + 4);
                                assert(0 <= w < ii + 1);
                                assert(moved_slot_prefix(s0, input, j, ii + 1));
                            }
                            if moved && 4 * ii <= j < 4 * ii + 4 {
                                assert(moved_slot_prefix(s0, input, j, ii + 1));
                            }
                            assert(buf_new[j] == buf_pre[j]);
                        }
                        // Earlier moved entities still render their new state.
                        assert forall|k: int| 0 <= k < ii + 1 implies ((#[trigger] s0[k])
                            matches Some(ek) ==> (any_moves(ek.components@, input) ==> (
                        self.entities@[k] matches Some(ek2) && slot_renders_entity(
                            buf_new,
                            k,
                            ek2.position,
                            ek2.rotation,
                        )))) by {
                            match s0[k] {
                                Some(ek) => {
                                    if any_moves(ek.components@, input) {
                                        if k < ii {
                                            match pre.entities@[k] {
                                                Some(ek2) => {
                                                    crate::graphics::lemma_slot_renders_preserved(
                                                        buf_pre,
                                                        buf_new,
                                                        k,
                                                        ii,
                                                        ek2.position,
                                                        ek2.rotation,
                                                    );
                                                },
                                                None => {},
                                            }
                                        }
                                    }
                                },
                                None => {},
                            }
                        }
                        // Every live entity still renders its current state:
                        // this entity from its own update, everyone else
                        // because only this entity's slot was written.
                        assert forall|k: int| 0 <= k < n implies ((#[trigger] self.entities@[k])
                            matches Some(ek2) ==> slot_renders_entity(
                            buf_new,
                            k,
                            ek2.position,
                            ek2.rotation,
                        )) by {
                            match self.entities@[k] {
                                Some(ek2) => {
                                    if k != ii {
                                        assert(pre.entities@[k] == self.entities@[k]);
                                        assert(slot_renders_entity(
                                            buf_pre,
                                            k,
                                            ek2.position,
                                            ek2.rotation,
                                        ));
                                        if moved {
                                            crate::graphics::lemma_slot_renders_preserved(
                                                buf_pre,
                                                buf_new,
                                                k,
                                                ii,
                                                ek2.position,
                                                ek2.rotation,
                                            );
                                        }
                                    } else {
                                        if !moved {
                                            crate::entity::lemma_no_moves_no_position_change(
                                                e_old.components@,
                                                e_old.position.x as int,
                                                e_old.position.y as int,
                                                input,
                                                delta_time,
                                            );
                                            assert(ek2.position == e_old.position);
                                            assert(slot_renders_entity(
                                                buf_pre,
                                                ii,
                                                e_old.position,
                                                e_old.rotation,
                                            ));
                                        }
                                    }
                                },
                                None => {},
                            }
                        }
                    }
                },
            }
            i = i + 1;
        }
        self.graphics.write_camera(&self.camera);
    }

    /// Lay out this frame's draw calls: group the live entities by
    /// layer, then emit one bind-and-draw command per entity — the whole
    /// background group first, then the whole foreground group, each in
    /// identity-ascending order, every command drawing exactly its
    /// entity's six pre-offset indices.
    pub fn render(&self) -> (r: Vec<DrawCommand>)
        requires
            self.wf(),
        ensures
            r@.len() == layer_entries(self.entities@, SortingLayer::Background).len()
                + layer_entries(self.entities@, SortingLayer::Foreground).len(),
            forall|k: int| 0 <= k < layer_entries(
                self.entities@,
                SortingLayer::Background,
            ).len() ==> command_matches(
                #[trigger] r@[k],
                layer_entries(self.entities@, SortingLayer::Background)[k],
            ),
            forall|k: int| layer_entries(self.entities@, SortingLayer::Background).len() <= k
                < r@.len() ==> command_matches(
                #[trigger] r@[k],
                layer_entries(self.entities@, SortingLayer::Foreground)[k - layer_entries(
                    self.entities@,
                    SortingLayer::Background,
                ).len()],
            ),
    {
        let groups = group_by_sorting_layer(&self.entities);
        proof {
            lemma_group_partition(self.entities@);
            assert forall|a: int| 0 <= a < groups.background@.len() implies (
            #[trigger] groups.background@[a]).0 < crate::graphics::MAX_CAPACITY + 1 by {
                assert(entries_below(groups.background@, self.entities@.len() as int));
            }
            assert forall|a: int| 0 <= a < groups.foreground@.len() implies (
            #[trigger] groups.foreground@[a]).0 < crate::graphics::MAX_CAPACITY + 1 by {
                assert(entries_below(groups.foreground@, self.entities@.len() as int));
            }
        }
        build_draw_list(&groups)
    }
}

} // verus!
