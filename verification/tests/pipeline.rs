use rendium::batch::RendiumDrawHandle;
use rendium::color::Color;
use rendium::frame::{DrawPlan, FrameCore, FramePhase};
use rendium::fx::SCALE;
use rendium::registry::TextureRegistry;
use rendium::texture::{Texture, TextureLoadError};
use rendium::vector::Vector2;

fn px(p: i64) -> i64 {
    p * SCALE
}

#[test]
fn ndc_maps_window_corners_to_ndc_corners() {
    let mut d = RendiumDrawHandle::new((600, 600), Vec::new());
    d.add_vertex(rendium::vector::Vector3(0, 0, 0), Color::white());
    d.add_vertex(rendium::vector::Vector3(px(600), px(600), 0), Color::white());
    d.add_vertex(rendium::vector::Vector3(px(300), px(300), 0), Color::white());
    let ndc = d.to_ndc();
    // (0, 0) -> (-1, 1); (width, height) -> (1, -1); the center -> (0, 0).
    assert_eq!(ndc[0], (-SCALE, SCALE, 0));
    assert_eq!(ndc[1], (SCALE, -SCALE, 0));
    assert_eq!(ndc[2], (0, 0, 0));
}

#[test]
fn ndc_is_affine_in_each_coordinate() {
    let mut d = RendiumDrawHandle::new((800, 600), Vec::new());
    for i in 0..5 {
        d.add_vertex(rendium::vector::Vector3(px(100 * i), px(60 * i), 0), Color::white());
    }
    let ndc = d.to_ndc();
    // Equal pixel steps give equal NDC steps.
    let step_x = ndc[1].0 - ndc[0].0;
    let step_y = ndc[1].1 - ndc[0].1;
    for i in 1..4 {
        assert!((ndc[i + 1].0 - ndc[i].0 - step_x).abs() <= 1);
        assert!((ndc[i + 1].1 - ndc[i].1 - step_y).abs() <= 1);
    }
}

#[test]
fn registry_iterates_in_insertion_order() {
    let mut reg: TextureRegistry<u32> = TextureRegistry::new();
    reg.insert("stone".to_string(), 10);
    reg.insert("grass".to_string(), 11);
    reg.insert("water".to_string(), 12);
    assert_eq!(reg.len(), 3);
    assert_eq!(reg.index_of("stone"), Some(0));
    assert_eq!(reg.index_of("grass"), Some(1));
    assert_eq!(reg.index_of("water"), Some(2));
    let names: Vec<String> = reg.names().clone();
    assert_eq!(names, vec!["stone".to_string(), "grass".to_string(), "water".to_string()]);
}

#[test]
fn registry_replace_preserves_position() {
    let mut reg: TextureRegistry<u32> = TextureRegistry::new();
    reg.insert("stone".to_string(), 10);
    reg.insert("grass".to_string(), 11);
    reg.insert("stone".to_string(), 99);
    assert_eq!(reg.len(), 2);
    assert_eq!(reg.index_of("stone"), Some(0));
    assert_eq!(reg.index_of("grass"), Some(1));
    assert_eq!(*reg.get(0), 99);
    assert_eq!(*reg.get(1), 11);
}

#[test]
fn registry_miss_returns_none() {
    let mut reg: TextureRegistry<u32> = TextureRegistry::new();
    reg.insert("stone".to_string(), 10);
    assert_eq!(reg.index_of("gras"), None);
    assert!(!reg.contains("gras"));
    assert!(reg.contains("stone"));
}

#[test]
fn draw_texture_with_unknown_name_is_a_no_op() {
    let mut d = RendiumDrawHandle::new((600, 600), vec!["stone".to_string()]);
    d.draw_texture("grass", Vector2(0, 0), Vector2(px(32), px(32)), Color::white());
    assert_eq!(d.vertex_count(), 0);
    assert_eq!(d.index_count(), 0);
}

#[test]
fn draw_texture_emits_quad_with_resolved_index() {
    let names = vec!["stone".to_string(), "grass".to_string()];
    let mut d = RendiumDrawHandle::new((600, 600), names);
    d.draw_texture("grass", Vector2(px(10), px(20)), Vector2(px(32), px(64)), Color::white());
    assert_eq!(d.vertex_count(), 4);
    assert_eq!(d.index_count(), 6);
    let vs = d.vertices();
    for v in vs.iter() {
        assert_eq!(v.tex, Some(1));
    }
    assert_eq!(vs[0].position, (px(10), px(20), 0));
    assert_eq!(vs[1].position, (px(42), px(20), 0));
    assert_eq!(vs[2].position, (px(42), px(84), 0));
    assert_eq!(vs[3].position, (px(10), px(84), 0));
    assert_eq!(vs[0].uv, (0, 0));
    assert_eq!(vs[1].uv, (SCALE, 0));
    assert_eq!(vs[2].uv, (SCALE, SCALE));
    assert_eq!(vs[3].uv, (0, SCALE));
    assert_eq!(d.indices().as_slice(), &[0, 1, 2, 0, 2, 3]);
}

#[test]
fn draw_texture_resolves_first_match() {
    let names = vec!["a".to_string(), "b".to_string(), "a".to_string()];
    let mut d = RendiumDrawHandle::new((600, 600), names);
    d.draw_texture("a", Vector2(0, 0), Vector2(px(1), px(1)), Color::white());
    assert_eq!(d.vertices()[0].tex, Some(0));
}

#[test]
fn frame_lifecycle_and_submission_decision() {
    let mut core = FrameCore::new(600, 600);
    // Before the GPU exists, nothing is drawn.
    assert_eq!(core.plan_draw(4, 6), DrawPlan::Skip);
    core.configure();

    // One rectangle against a 600x600 window: a non-empty submission.
    let mut d = RendiumDrawHandle::new((600, 600), Vec::new());
    d.draw_rect(Vector2(0, 0), px(100), px(100), Color::red());
    let plan = core.plan_draw(d.vertex_count(), d.index_count());
    assert_eq!(plan, DrawPlan::Render { index_count: 6 });

    // An untouched batch: the submission step is skipped entirely.
    let empty = RendiumDrawHandle::new((600, 600), Vec::new());
    assert_eq!(core.plan_draw(empty.vertex_count(), empty.index_count()), DrawPlan::Skip);

    // Indices without vertices (or the reverse) are also skipped.
    assert_eq!(core.plan_draw(0, 6), DrawPlan::Skip);
    assert_eq!(core.plan_draw(4, 0), DrawPlan::Skip);

    // Resize keeps the phase and asks for a reconfigure once configured.
    assert!(core.resize(800, 600));
    assert_eq!(core.plan_draw(4, 6), DrawPlan::Render { index_count: 6 });

    // After teardown nothing is drawn.
    core.close();
    assert_eq!(core.plan_draw(4, 6), DrawPlan::Skip);
}

#[test]
fn frame_resize_before_configure_needs_no_reconfigure() {
    let mut core = FrameCore::new(600, 600);
    assert!(!core.resize(640, 480));
    core.configure();
    assert!(core.resize(640, 481));
}

#[test]
fn texture_from_rgba_validates_length() {
    let data = vec![0u8; 4 * 2 * 3];
    let t = Texture::from_rgba(data, 2, 3).unwrap();
    assert_eq!(t.width(), 2);
    assert_eq!(t.height(), 3);
    assert_eq!(t.data().len(), 24);

    let bad = Texture::from_rgba(vec![0u8; 23], 2, 3);
    assert_eq!(bad.unwrap_err(), TextureLoadError::SizeMismatch);
}

#[test]
fn texture_from_rgb_expands_alpha() {
    let data = vec![1u8, 2, 3, 4, 5, 6];
    let t = Texture::from_rgb(data, 2, 1).unwrap();
    assert_eq!(t.data().as_slice(), &[1, 2, 3, 255, 4, 5, 6, 255]);
    assert_eq!(t.width(), 2);
    assert_eq!(t.height(), 1);

    let bad = Texture::from_rgb(vec![0u8; 5], 2, 1);
    assert_eq!(bad.unwrap_err(), TextureLoadError::SizeMismatch);
}

#[test]
fn color_constructors() {
    assert_eq!(Color::rgba(1, 2, 3, 4), Color(1, 2, 3, 4));
    assert_eq!(Color::rgb(1, 2, 3), Color(1, 2, 3, 255));
    assert_eq!(Color::white(), Color(255, 255, 255, 255));
    assert_eq!(Color::black(), Color(0, 0, 0, 255));
    assert_eq!(Color::red(), Color(255, 0, 0, 255));
    assert_eq!(Color::green(), Color(0, 255, 0, 255));
    assert_eq!(Color::blue(), Color(0, 0, 255, 255));
}

#[test]
fn phases_are_distinct() {
    assert_ne!(FramePhase::Uninitialized, FramePhase::Configured);
    assert_ne!(FramePhase::Configured, FramePhase::TornDown);
}
