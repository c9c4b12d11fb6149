//! Resource paths, meshes, materials, styles and the collider utility.

use sprite_engine::graphics::material::Material;
use sprite_engine::graphics::mesh::Mesh;
use sprite_engine::graphics::vertex::Vertex;
use sprite_engine::math::{Vec2, Vec3, FP_ONE};
use sprite_engine::parsing::styles::{create_rule, create_style, create_styles, hex,
    parse_hex_color};
use sprite_engine::physics::collider::Collider;
use sprite_engine::resources::Resource;
use sprite_engine::ui::style::{Color, StyleRule};

#[test]
fn build_path_joins_root_subdir_and_file() {
    assert_eq!(
        Resource::build_path("/assets", Some("textures"), "grass.png"),
        "/assets/res/textures/grass.png"
    );
    assert_eq!(Resource::build_path("/assets", None, "sprite.wgsl"), "/assets/res/sprite.wgsl");
}

#[test]
fn hex_digits_and_colors() {
    assert_eq!(hex(Some('0')), 0);
    assert_eq!(hex(Some('9')), 9);
    assert_eq!(hex(Some('a')), 10);
    assert_eq!(hex(Some('F')), 15);
    let c = parse_hex_color("#ff8000");
    assert_eq!(c, Color { r: 255, g: 128, b: 0, a: 255 });
    let c2 = parse_hex_color("102030");
    assert_eq!(c2, Color { r: 16, g: 32, b: 48, a: 255 });
}

#[test]
fn rules_and_styles_from_declarations() {
    let bg = create_rule("background_color", String::from("#102030"));
    assert_eq!(bg, StyleRule::BackgroundColor(Color { r: 16, g: 32, b: 48, a: 255 }));
    let fg = create_rule("color", String::from("ffffff"));
    assert_eq!(fg, StyleRule::TextColor(Color { r: 255, g: 255, b: 255, a: 255 }));

    let style = create_style(&vec![
        (String::from("background_color"), String::from("#000000")),
        (String::from("color"), String::from("#ff0000")),
    ]);
    assert_eq!(style.get_rules().len(), 2);
    assert_eq!(
        style.get_rules()[1],
        StyleRule::TextColor(Color { r: 255, g: 0, b: 0, a: 255 })
    );

    let sheet = create_styles(&vec![(
        String::from("button"),
        vec![(String::from("background_color"), String::from("#0a0b0c"))],
    )]);
    assert_eq!(sheet.len(), 1);
    assert_eq!(sheet[0].0, "button");
    assert_eq!(
        sheet[0].1.rules[0],
        StyleRule::BackgroundColor(Color { r: 10, g: 11, b: 12, a: 255 })
    );
}

#[test]
fn mesh_copies_and_duplicates_geometry() {
    let verts = [
        Vertex { position: Vec3 { x: 0, y: 0, z: 0 }, tex_coords: Vec2 { x: 0, y: 0 } },
        Vertex {
            position: Vec3 { x: FP_ONE, y: 0, z: 0 },
            tex_coords: Vec2 { x: FP_ONE, y: 0 },
        },
    ];
    let indices = [0u16, 1, 0];
    let mesh = Mesh::new(String::from("strip"), &verts, &indices);
    assert_eq!(mesh.name, "strip");
    assert_eq!(mesh.num_elements, 3);
    assert_eq!(mesh.verts.len(), 2);
    assert_eq!(mesh.indices, vec![0, 1, 0]);
    let copy = mesh.duplicate();
    assert_eq!(copy.name, "strip");
    assert_eq!(copy.indices, mesh.indices);
    assert_eq!(copy.verts, mesh.verts);
    assert_eq!(copy.num_elements, 3);
}

#[test]
fn material_wraps_resource_handles() {
    let m = Material::new(String::from("grass"), 3, 7);
    assert_eq!(m.name, "grass");
    assert_eq!(m.texture, 3);
    assert_eq!(m.bind_group, 7);
}

#[test]
fn collider_cast_detects_partial_overlap_only() {
    let unit = |x: i64, y: i64| Collider {
        origin: Vec2 { x, y },
        width: FP_ONE,
        height: FP_ONE,
    };
    let a = unit(0, 0);
    let near = unit(FP_ONE / 2, 10000);
    let far = unit(3 * FP_ONE, 0);
    let zero = Vec2 { x: 0, y: 0 };
    assert!(a.cast(zero, &near, zero));
    assert!(!a.cast(zero, &far, zero));
    // Displacing the caster onto the distant box makes them overlap.
    assert!(a.cast(Vec2 { x: 3 * FP_ONE - FP_ONE / 2, y: 10000 }, &far, zero));
    assert_eq!(a.up(), FP_ONE / 2);
    assert_eq!(a.down(), -(FP_ONE / 2));
    assert_eq!(a.left(), -(FP_ONE / 2));
    assert_eq!(a.right(), FP_ONE / 2);
}
