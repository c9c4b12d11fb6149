//! Geometry template and transform math.

use sprite_engine::graphics::sprite::Sprite;
use sprite_engine::graphics::vertex::RenderVertex;
use sprite_engine::math::{entity_transform, Quat, Vec2, FP_ONE, FP_ONE_SQ};

#[test]
fn quad_indices_are_two_triangles() {
    assert_eq!(Sprite::get_indices(), [0, 1, 3, 1, 2, 3]);
}

#[test]
fn quad_vertices_span_half_unit_with_top_left_texture_origin() {
    let verts = Sprite::get_vertices();
    assert_eq!(verts.len(), 4);
    // Top-left vertex carries texture coordinate (0, 0).
    assert_eq!(verts[0].position.x, -32768);
    assert_eq!(verts[0].position.y, 32768);
    assert_eq!(verts[0].position.z, 0);
    assert_eq!(verts[0].tex_coords.x, 0);
    assert_eq!(verts[0].tex_coords.y, 0);
    // Bottom-left.
    assert_eq!(verts[1].position.x, -32768);
    assert_eq!(verts[1].position.y, -32768);
    assert_eq!(verts[1].tex_coords.x, 0);
    assert_eq!(verts[1].tex_coords.y, FP_ONE);
    // Bottom-right.
    assert_eq!(verts[2].position.x, 32768);
    assert_eq!(verts[2].position.y, -32768);
    assert_eq!(verts[2].tex_coords.x, FP_ONE);
    assert_eq!(verts[2].tex_coords.y, FP_ONE);
    // Top-right.
    assert_eq!(verts[3].position.x, 32768);
    assert_eq!(verts[3].position.y, 32768);
    assert_eq!(verts[3].tex_coords.x, FP_ONE);
    assert_eq!(verts[3].tex_coords.y, 0);
}

#[test]
fn identity_transform_translates_only() {
    let m = entity_transform(Vec2 { x: 3 * FP_ONE, y: -2 * FP_ONE }, Quat::identity());
    // Rotation part is the identity at matrix scale.
    assert_eq!(m.c0.x, FP_ONE_SQ);
    assert_eq!(m.c0.y, 0);
    assert_eq!(m.c0.z, 0);
    assert_eq!(m.c1.y, FP_ONE_SQ);
    assert_eq!(m.c2.z, FP_ONE_SQ);
    // Translation column carries the position.
    assert_eq!(m.c3.x, 3 * FP_ONE * FP_ONE);
    assert_eq!(m.c3.y, -2 * FP_ONE * FP_ONE);
    assert_eq!(m.c3.z, 0);
    assert_eq!(m.c3.w, FP_ONE_SQ);
}

#[test]
fn quarter_turn_quaternion_rotates_axes() {
    // A rotation of half a turn around z: (x, y, z, w) = (0, 0, 1, 0).
    let m = entity_transform(Vec2 { x: 0, y: 0 }, Quat { x: 0, y: 0, z: FP_ONE, w: 0 });
    // x axis maps to -x, y axis maps to -y.
    assert_eq!(m.c0.x, -FP_ONE_SQ);
    assert_eq!(m.c0.y, 0);
    assert_eq!(m.c1.y, -FP_ONE_SQ);
    assert_eq!(m.c2.z, FP_ONE_SQ);
    assert_eq!(m.c3.x, 0);
}

#[test]
fn render_vertices_keep_template_and_share_transform() {
    let template = Sprite::get_vertices();
    let pos = Vec2 { x: FP_ONE, y: 0 };
    let verts = RenderVertex::new(pos, Quat::identity(), &template);
    assert_eq!(verts.len(), 4);
    for (v, t) in verts.iter().zip(template.iter()) {
        assert_eq!(v.position, t.position);
        assert_eq!(v.tex_coords, t.tex_coords);
        assert_eq!(v.transform.c3.x, FP_ONE * FP_ONE);
        assert_eq!(v.transform.c3.y, 0);
        assert_eq!(v.transform.c0.x, FP_ONE_SQ);
    }
}
