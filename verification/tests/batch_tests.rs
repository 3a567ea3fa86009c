use sprite_batch::atlas::{Image, SpriteLoader};
use sprite_batch::batch::{DrawData, SpriteBatch};
use sprite_batch::color::Color;
use sprite_batch::rectangle::Rectangle;
use sprite_batch::scalar::{ONE_BITS, ZERO_BITS};
use sprite_batch::vector2::Vector2;

fn solid_image(width: u32, height: u32, rgba: [u8; 4]) -> Image {
    let mut pixels: Vec<u8> = Vec::new();
    for _ in 0..(width * height) {
        pixels.extend_from_slice(&rgba);
    }
    Image::new(width, height, pixels).unwrap()
}

#[test]
fn scalar_bit_patterns_match_ieee_values() {
    assert_eq!(ONE_BITS, 1.0f32.to_bits());
    assert_eq!(ZERO_BITS, 0.0f32.to_bits());
    assert_eq!(f32::from_bits(ONE_BITS), 1.0);
    assert_eq!(f32::from_bits(ZERO_BITS), 0.0);
}

#[test]
fn draw_data_defaults() {
    let d = DrawData::default();
    assert_eq!(d.sprite.index(), 0);
    assert_eq!(d.sprite.dimensions(), (1, 1));
    assert_eq!(d.position, Vector2::new(0, 0));
    assert!(d.source.is_none());
    assert_eq!(d.rotation, 0.0f32.to_bits());
    assert_eq!(d.origin, Vector2::new(0, 0));
    assert_eq!(d.color, Color::new(ONE_BITS, ONE_BITS, ONE_BITS, ONE_BITS));
    assert_eq!(d.depth, 0.0f32.to_bits());
    assert_eq!(d.scale, Vector2::new(ONE_BITS, ONE_BITS));
}

#[test]
fn empty_flush_produces_no_geometry() {
    let mut batch = SpriteBatch::new(64, 64);
    assert!(batch.flush().is_none());
    assert_eq!(batch.len(), 0);
}

#[test]
fn flush_always_leaves_the_queue_empty() {
    let mut batch = SpriteBatch::new(8, 8);
    batch.draw(DrawData::default());
    batch.draw(DrawData::default());
    assert_eq!(batch.len(), 2);
    let geometry = batch.flush();
    assert!(geometry.is_some());
    assert_eq!(batch.len(), 0);
    // A second flush has nothing to hand to the GPU.
    assert!(batch.flush().is_none());
    assert_eq!(batch.len(), 0);
}

#[test]
fn three_draws_give_twelve_vertices_and_eighteen_indices() {
    let mut batch = SpriteBatch::new(16, 16);
    for _ in 0..3 {
        batch.draw(DrawData::default());
    }
    let geometry = batch.flush().unwrap();
    assert_eq!(geometry.vertices.len(), 12);
    assert_eq!(geometry.indices.len(), 18);
    assert_eq!(geometry.quads.len(), 3);
    for i in 0..3u32 {
        let base = 4 * i;
        let triples = &geometry.indices[(6 * i) as usize..(6 * i + 6) as usize];
        assert_eq!(
            triples,
            &[base, base + 1, base + 2, base + 2, base + 3, base]
        );
    }
}

#[test]
fn vertices_carry_corners_in_quad_order() {
    let mut batch = SpriteBatch::new(4, 4);
    batch.draw(DrawData::default());
    let geometry = batch.flush().unwrap();
    let corners: Vec<(u32, u32)> = geometry
        .vertices
        .iter()
        .map(|v| (v.corner_x, v.corner_y))
        .collect();
    assert_eq!(corners, vec![(0, 0), (1, 0), (1, 1), (0, 1)]);
}

#[test]
fn uv_scenario_for_two_registered_images() {
    // Register a 2×2 opaque-white image and a 4×4 image: the cell becomes
    // 4×4. A full draw of sprite 1 covers the whole cell, a full draw of
    // sprite 0 only its top-left quarter.
    let mut loader = SpriteLoader::new();
    let white = loader.load_sprite(solid_image(2, 2, [255, 255, 255, 255]));
    let other = loader.load_sprite(solid_image(4, 4, [1, 2, 3, 4]));
    let atlas = loader.build_atlas();
    assert_eq!((atlas.cell_width, atlas.cell_height), (4, 4));

    let mut batch = SpriteBatch::new(atlas.cell_width, atlas.cell_height);
    batch.draw(DrawData {
        sprite: other,
        ..DrawData::default()
    });
    batch.draw(DrawData {
        sprite: white,
        ..DrawData::default()
    });
    let geometry = batch.flush().unwrap();

    let cell = geometry.cell_width as f32;
    // Sprite 1, the 4×4 image: UVs run from (0, 0) to (1, 1).
    let v = &geometry.vertices[2]; // corner (1, 1) of the first quad
    assert_eq!(v.index, 1);
    assert_eq!((v.uv_x, v.uv_y), (4, 4));
    assert_eq!((v.uv_x as f32 / cell, v.uv_y as f32 / cell), (1.0, 1.0));
    // Sprite 0, the 2×2 image: UVs run from (0, 0) to (0.5, 0.5).
    let v = &geometry.vertices[4 + 2];
    assert_eq!(v.index, 0);
    assert_eq!((v.uv_x, v.uv_y), (2, 2));
    assert_eq!((v.uv_x as f32 / cell, v.uv_y as f32 / cell), (0.5, 0.5));
    let v = &geometry.vertices[4]; // corner (0, 0) of the second quad
    assert_eq!((v.uv_x, v.uv_y), (0, 0));
}

#[test]
fn default_uv_covers_original_extent_not_padded_cell() {
    let mut loader = SpriteLoader::new();
    loader.load_sprite(solid_image(1, 1, [255, 255, 255, 255]));
    let sheet = loader.load_sprite(solid_image(16, 48, [5, 6, 7, 8]));
    let atlas = loader.build_atlas();
    assert_eq!((atlas.cell_width, atlas.cell_height), (16, 48));

    let mut batch = SpriteBatch::new(atlas.cell_width, atlas.cell_height);
    batch.draw(DrawData {
        sprite: sheet,
        ..DrawData::default()
    });
    let geometry = batch.flush().unwrap();
    // The sprite's original extent is also the cell here, so the default
    // source runs to (16, 48) — the registered size, not beyond it.
    assert_eq!((geometry.vertices[0].uv_x, geometry.vertices[0].uv_y), (0, 0));
    assert_eq!((geometry.vertices[2].uv_x, geometry.vertices[2].uv_y), (16, 48));
}

#[test]
fn source_rectangle_selects_a_sheet_frame() {
    let mut loader = SpriteLoader::new();
    loader.load_sprite(solid_image(1, 1, [255, 255, 255, 255]));
    let sheet = loader.load_sprite(solid_image(16, 48, [5, 6, 7, 8]));
    let atlas = loader.build_atlas();

    let mut batch = SpriteBatch::new(atlas.cell_width, atlas.cell_height);
    batch.draw(DrawData {
        sprite: sheet,
        source: Some(Rectangle::new(0, 16, 16, 16)),
        ..DrawData::default()
    });
    let geometry = batch.flush().unwrap();
    assert_eq!((geometry.vertices[0].uv_x, geometry.vertices[0].uv_y), (0, 16));
    assert_eq!((geometry.vertices[2].uv_x, geometry.vertices[2].uv_y), (16, 32));
    // Normalized by the cell, the frame spans the middle third vertically.
    let (cw, ch) = (atlas.cell_width as f32, atlas.cell_height as f32);
    assert_eq!(geometry.vertices[0].uv_y as f32 / ch, 16.0 / 48.0);
    assert_eq!(geometry.vertices[2].uv_x as f32 / cw, 1.0);
    assert_eq!(geometry.vertices[2].uv_y as f32 / ch, 32.0 / 48.0);
    // The quad is scaled by the frame's extent, not the whole sheet's.
    assert_eq!(geometry.quads[0].source_width, 16);
    assert_eq!(geometry.quads[0].source_height, 16);
}

#[test]
fn vertex_and_quad_fields_are_routed_unchanged() {
    let mut batch = SpriteBatch::new(32, 32);
    let color = Color::new(
        0.25f32.to_bits(),
        0.5f32.to_bits(),
        0.75f32.to_bits(),
        1.0f32.to_bits(),
    );
    batch.draw(DrawData {
        position: Vector2::new(40.0f32.to_bits(), (-12.5f32).to_bits()),
        rotation: 1.5f32.to_bits(),
        origin: Vector2::new(8.0f32.to_bits(), 8.0f32.to_bits()),
        color,
        depth: 0.125f32.to_bits(),
        scale: Vector2::new(10.0f32.to_bits(), 10.0f32.to_bits()),
        ..DrawData::default()
    });
    let geometry = batch.flush().unwrap();

    for v in &geometry.vertices {
        assert_eq!(f32::from_bits(v.depth), 0.125);
        assert_eq!(f32::from_bits(v.color.red), 0.25);
        assert_eq!(f32::from_bits(v.color.green), 0.5);
        assert_eq!(f32::from_bits(v.color.blue), 0.75);
        assert_eq!(f32::from_bits(v.color.alpha), 1.0);
    }
    let quad = &geometry.quads[0];
    assert_eq!(f32::from_bits(quad.position.x), 40.0);
    assert_eq!(f32::from_bits(quad.position.y), -12.5);
    assert_eq!(f32::from_bits(quad.rotation), 1.5);
    assert_eq!(f32::from_bits(quad.origin.x), 8.0);
    assert_eq!(f32::from_bits(quad.scale.x), 10.0);
    assert_eq!(quad.source_width, 1);
    assert_eq!(quad.source_height, 1);
}

#[test]
fn clear_color_enqueues_a_fullscreen_quad_of_the_reserved_sprite() {
    let mut batch = SpriteBatch::new(64, 64);
    let tint = Color::new(
        0.0f32.to_bits(),
        1.0f32.to_bits(),
        0.0f32.to_bits(),
        1.0f32.to_bits(),
    );
    // The caller reads the 800×600 viewport and places the quad over it.
    let top_left = Vector2::new((-400.0f32).to_bits(), (-300.0f32).to_bits());
    let size = Vector2::new(800.0f32.to_bits(), 600.0f32.to_bits());
    batch.clear_color(tint, top_left, size);

    let geometry = batch.flush().unwrap();
    assert_eq!(geometry.quads.len(), 1);
    let quad = &geometry.quads[0];
    assert_eq!(f32::from_bits(quad.position.x), -400.0);
    assert_eq!(f32::from_bits(quad.position.y), -300.0);
    assert_eq!(f32::from_bits(quad.scale.x), 800.0);
    assert_eq!(f32::from_bits(quad.scale.y), 600.0);
    assert_eq!(quad.source_width, 1);
    assert_eq!(quad.source_height, 1);
    // The reserved white sprite on layer 0, covering its whole 1×1 extent.
    for v in &geometry.vertices {
        assert_eq!(v.index, 0);
        assert_eq!(v.color, tint);
        assert!(v.uv_x <= 1 && v.uv_y <= 1);
    }
}
