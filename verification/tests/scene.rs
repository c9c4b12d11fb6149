//! Scene-level behavior: creation against capacity, identity collisions,
//! incremental moves, grouping, and the per-frame draw plan.

use sprite_engine::camera::Camera;
use sprite_engine::components::player_movement::PlayerMovement;
use sprite_engine::components::ComponentKind;
use sprite_engine::config::Config;
use sprite_engine::entity::Entity;
use sprite_engine::graphics::{build_batched_draw_list, group_by_sorting_layer};
use sprite_engine::graphics::sorting_layer::SortingLayer;
use sprite_engine::input::ReadOnlyInput;
use sprite_engine::math::{Quat, Vec2, Vec3, FP_ONE, FP_ONE_SQ};
use sprite_engine::state::{SceneError, State};

fn test_camera() -> Camera {
    Camera {
        aspect: 2 * FP_ONE,
        position: Vec3 { x: 0, y: 0, z: 5 * FP_ONE },
        scale: 4 * FP_ONE,
        znear: 0,
        zfar: 100 * FP_ONE,
    }
}

fn test_state(capacity: usize) -> State {
    State::new(test_camera(), Config::new(None), (640, 480), capacity)
}

fn at(x: i64, y: i64) -> Vec2 {
    Vec2 { x, y }
}

#[test]
fn creation_past_capacity_is_rejected_without_touching_buffers() {
    let mut s = test_state(4);
    for k in 0..4 {
        let id = s
            .create_entity(at(k * FP_ONE, 0), Quat::identity(), 0, SortingLayer::Background, None)
            .unwrap();
        assert_eq!(id, k as usize);
    }
    let vertex_before = s.graphics.vertex_data.clone();
    let index_before = s.graphics.index_data.clone();
    let r = s.create_entity(at(0, 0), Quat::identity(), 0, SortingLayer::Background, None);
    assert_eq!(r, Err(SceneError::CapacityExceeded));
    assert_eq!(s.num_entities(), 4);
    assert_eq!(s.graphics.vertex_data, vertex_before);
    assert_eq!(s.graphics.index_data, index_before);
}

#[test]
fn identity_collision_is_rejected() {
    let mut s = test_state(4);
    s.create_entity(at(0, 0), Quat::identity(), 0, SortingLayer::Background, None).unwrap();
    let dup = Entity::create(0, at(FP_ONE, 0), Quat::identity(), 0, SortingLayer::Background, None);
    let vertex_before = s.graphics.vertex_data.clone();
    assert_eq!(s.add_entity(dup), Err(SceneError::IdentityCollision));
    assert_eq!(s.graphics.vertex_data, vertex_before);
}

#[test]
fn move_updates_only_the_moved_slot() {
    let mut s = test_state(4);
    for _ in 0..4 {
        s.create_entity(at(0, 0), Quat::identity(), 0, SortingLayer::Background, None).unwrap();
    }
    s.move_entity(2, at(FP_ONE, 0)).unwrap();
    // Entity 2's four vertices carry a transform translating by (1, 0, 0).
    let slot2 = s.graphics.read_entity(2);
    for v in slot2.iter() {
        assert_eq!(v.transform.c3.x, FP_ONE * FP_ONE);
        assert_eq!(v.transform.c3.y, 0);
        assert_eq!(v.transform.c3.z, 0);
        assert_eq!(v.transform.c3.w, FP_ONE_SQ);
    }
    // Its neighbors keep their prior translation.
    for id in [1usize, 3] {
        let slot = s.graphics.read_entity(id);
        for v in slot.iter() {
            assert_eq!(v.transform.c3.x, 0);
            assert_eq!(v.transform.c3.y, 0);
        }
    }
    // The registry position moved too.
    let moved = s.entities[2].as_ref().unwrap();
    assert_eq!(moved.get_position().x, FP_ONE);
}

#[test]
fn moving_a_dead_identity_fails_and_changes_nothing() {
    let mut s = test_state(4);
    s.create_entity(at(0, 0), Quat::identity(), 0, SortingLayer::Background, None).unwrap();
    assert_eq!(s.move_entity(3, at(FP_ONE, 0)), Err(SceneError::EntityNotFound));
    assert!(s.remove_entity(0));
    assert_eq!(s.move_entity(0, at(FP_ONE, 0)), Err(SceneError::EntityNotFound));
    assert!(!s.remove_entity(0));
}

#[test]
fn grouping_partitions_live_entities_in_identity_order() {
    let mut s = test_state(8);
    s.create_entity(at(0, 0), Quat::identity(), 0, SortingLayer::Background, None).unwrap();
    s.create_entity(at(FP_ONE, 0), Quat::identity(), 1, SortingLayer::Foreground, None).unwrap();
    s.create_entity(at(2 * FP_ONE, 0), Quat::identity(), 0, SortingLayer::Background, None)
        .unwrap();
    s.create_entity(at(3 * FP_ONE, 0), Quat::identity(), 1, SortingLayer::Foreground, None)
        .unwrap();
    // Punch a hole: removed entities are skipped, later identities keep
    // their slots.
    s.remove_entity(1);
    let groups = group_by_sorting_layer(&s.entities);
    assert_eq!(groups.background, vec![(0, 0), (2, 0)]);
    assert_eq!(groups.foreground, vec![(3, 1)]);
}

#[test]
fn draw_plan_binds_each_entity_once_in_layer_order() {
    let mut s = test_state(8);
    // Two foreground entities share material 5; one background entity
    // uses material 2.
    s.create_entity(at(0, 0), Quat::identity(), 5, SortingLayer::Foreground, None).unwrap();
    s.create_entity(at(FP_ONE, 0), Quat::identity(), 2, SortingLayer::Background, None).unwrap();
    s.create_entity(at(2 * FP_ONE, 0), Quat::identity(), 5, SortingLayer::Foreground, None)
        .unwrap();
    let plan = s.render();
    assert_eq!(plan.len(), 3);
    // Background first.
    assert_eq!(plan[0].material, 2);
    assert_eq!(plan[0].index_start, 6);
    assert_eq!(plan[0].index_end, 12);
    // Then the foreground, identity-ascending, the shared material bound
    // for each of its entities.
    assert_eq!(plan[1].material, 5);
    assert_eq!(plan[1].index_start, 0);
    assert_eq!(plan[1].index_end, 6);
    assert_eq!(plan[2].material, 5);
    assert_eq!(plan[2].index_start, 12);
    assert_eq!(plan[2].index_end, 18);
}

#[test]
fn batched_draw_plan_merges_adjacent_same_material_runs() {
    let mut s = test_state(8);
    // Entities 0 and 1 share a material and sit in adjacent index
    // blocks; entity 2 uses another material.
    s.create_entity(at(0, 0), Quat::identity(), 3, SortingLayer::Background, None).unwrap();
    s.create_entity(at(FP_ONE, 0), Quat::identity(), 3, SortingLayer::Background, None).unwrap();
    s.create_entity(at(2 * FP_ONE, 0), Quat::identity(), 4, SortingLayer::Background, None)
        .unwrap();
    let groups = group_by_sorting_layer(&s.entities);
    let plan = build_batched_draw_list(&groups);
    assert_eq!(plan.len(), 2);
    assert_eq!(plan[0].material, 3);
    assert_eq!(plan[0].index_start, 0);
    assert_eq!(plan[0].index_end, 12);
    assert_eq!(plan[1].material, 4);
    assert_eq!(plan[1].index_start, 12);
    assert_eq!(plan[1].index_end, 18);
}

#[test]
fn update_walks_the_player_and_rewrites_its_slot() {
    let mut s = test_state(4);
    let mut player = Entity::create(
        0,
        at(0, 0),
        Quat::identity(),
        0,
        SortingLayer::Foreground,
        None,
    );
    player.add_component(ComponentKind::PlayerMovement(PlayerMovement { walk_speed: FP_ONE }));
    s.add_entity(player).unwrap();
    s.create_entity(at(FP_ONE, 0), Quat::identity(), 0, SortingLayer::Background, None).unwrap();
    let input = ReadOnlyInput {
        is_down_pressed: false,
        is_left_pressed: false,
        is_right_pressed: true,
        is_up_pressed: false,
    };
    // One second at walk speed one: about seven hundredths of a unit.
    s.update(input, FP_ONE);
    let p = s.entities[0].as_ref().unwrap();
    assert_eq!(p.get_position().x, 4588);
    assert_eq!(p.get_position().y, 0);
    let slot = s.graphics.read_entity(0);
    assert_eq!(slot[0].transform.c3.x, 4588 * FP_ONE);
    // The bystander did not move and its slot is untouched.
    let other = s.entities[1].as_ref().unwrap();
    assert_eq!(other.get_position().x, FP_ONE);
    let slot1 = s.graphics.read_entity(1);
    assert_eq!(slot1[0].transform.c3.x, FP_ONE * FP_ONE);
    // The frame pushed the camera matrix into the uniform.
    assert_eq!(s.graphics.camera_uniform.view_proj.c0.x, 536870912);
}

#[test]
fn update_without_input_leaves_positions_and_slots_alone() {
    let mut s = test_state(4);
    let mut player = Entity::create(
        0,
        at(0, 0),
        Quat::identity(),
        0,
        SortingLayer::Foreground,
        None,
    );
    player.add_component(ComponentKind::PlayerMovement(PlayerMovement { walk_speed: FP_ONE }));
    s.add_entity(player).unwrap();
    let before = s.graphics.vertex_data.clone();
    s.update(ReadOnlyInput::new(), FP_ONE);
    assert_eq!(s.entities[0].as_ref().unwrap().get_position().x, 0);
    assert_eq!(s.graphics.vertex_data, before);
}

#[test]
fn empty_scene_renders_nothing() {
    let s = test_state(4);
    assert_eq!(s.num_entities(), 0);
    assert!(s.render().is_empty());
    let groups = group_by_sorting_layer(&s.entities);
    assert!(groups.background.is_empty());
    assert!(groups.foreground.is_empty());
}

#[test]
fn zero_capacity_rejects_the_first_entity() {
    let mut s = test_state(0);
    let r = s.create_entity(at(0, 0), Quat::identity(), 0, SortingLayer::Background, None);
    assert_eq!(r, Err(SceneError::CapacityExceeded));
}

#[test]
fn resize_recomputes_aspect_and_ignores_degenerate_sizes() {
    let mut s = test_state(4);
    s.resize(1920, 1080);
    assert_eq!(s.camera.aspect, 1920 * FP_ONE / 1080);
    assert_eq!(s.size, (1920, 1080));
    s.resize(0, 1080);
    assert_eq!(s.size, (1920, 1080));
}
