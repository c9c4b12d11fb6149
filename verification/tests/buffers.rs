//! The shared render buffers: slot layout, index pre-population, partial
//! writes and their round trips.

use sprite_engine::graphics::sprite::Sprite;
use sprite_engine::graphics::vertex::RenderVertex;
use sprite_engine::graphics::{RenderBuffers, SLOT_BYTES, VERTEX_RECORD_BYTES};
use sprite_engine::math::{Quat, Vec2, FP_ONE, FP_ONE_SQ};

#[test]
fn byte_offsets_are_slot_multiples_and_disjoint() {
    assert_eq!(VERTEX_RECORD_BYTES, 84);
    assert_eq!(SLOT_BYTES, 336);
    assert_eq!(RenderBuffers::entity_byte_offset(0), 0);
    assert_eq!(RenderBuffers::entity_byte_offset(1), 336);
    assert_eq!(RenderBuffers::entity_byte_offset(7), 7 * 336);
    // Consecutive slots touch but never overlap.
    for id in 0usize..16 {
        let lo = RenderBuffers::entity_byte_offset(id);
        let hi = RenderBuffers::entity_byte_offset(id + 1);
        assert_eq!(lo + SLOT_BYTES as u64, hi);
    }
}

#[test]
fn index_buffer_is_prefilled_with_offset_quads() {
    let b = RenderBuffers::new(3);
    assert_eq!(b.index_data.len(), 18);
    for e in 0u32..3 {
        let block = &b.index_data[(e as usize) * 6..(e as usize) * 6 + 6];
        assert_eq!(block, &[4 * e, 4 * e + 1, 4 * e + 3, 4 * e + 1, 4 * e + 2, 4 * e + 3]);
    }
}

#[test]
fn index_buffer_survives_entity_writes() {
    let mut b = RenderBuffers::new(4);
    let before: Vec<u32> = b.index_data.clone();
    let verts = RenderVertex::new(
        Vec2 { x: FP_ONE, y: FP_ONE },
        Quat::identity(),
        &Sprite::get_vertices(),
    );
    b.write_entity(2, verts);
    assert_eq!(b.index_data, before);
}

#[test]
fn write_then_read_round_trips_unaffected_by_other_slots() {
    let mut b = RenderBuffers::new(4);
    let verts1 = RenderVertex::new(
        Vec2 { x: FP_ONE, y: 0 },
        Quat::identity(),
        &Sprite::get_vertices(),
    );
    let verts2 = RenderVertex::new(
        Vec2 { x: 0, y: -FP_ONE },
        Quat::identity(),
        &Sprite::get_vertices(),
    );
    let expected: Vec<_> = verts1.clone();
    b.write_entity(1, verts1);
    b.write_entity(2, verts2);
    assert_eq!(b.read_entity(1), expected);
    // The neighbor holds its own data, not entity 1's.
    let got2 = b.read_entity(2);
    assert_eq!(got2[0].transform.c3.y, -FP_ONE * FP_ONE);
    assert_eq!(got2[0].transform.c3.x, 0);
}

#[test]
fn fresh_vertex_buffer_is_zeroed() {
    let b = RenderBuffers::new(2);
    assert_eq!(b.vertex_data.len(), 8);
    for v in b.vertex_data.iter() {
        assert_eq!(v.position.x, 0);
        assert_eq!(v.transform.c3.w, 0);
    }
    // The fresh camera uniform is the identity.
    assert_eq!(b.camera_uniform.view_proj.c0.x, FP_ONE_SQ);
    assert_eq!(b.camera_uniform.view_proj.c3.x, 0);
}
