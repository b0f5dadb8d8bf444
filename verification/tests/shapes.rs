use rendium::batch::RendiumDrawHandle;
use rendium::color::Color;
use rendium::fx::SCALE;
use rendium::vector::{Vector2, Vector3};

/// Pixels to fixed-point units.
fn px(p: i64) -> i64 {
    p * SCALE
}

fn fresh_handle() -> RendiumDrawHandle {
    RendiumDrawHandle::new((600, 600), Vec::new())
}

#[test]
fn add_vertex_returns_indices_in_order() {
    let mut d = fresh_handle();
    let i0 = d.add_vertex(Vector3(px(1), px(2), 0), Color::rgb(1, 2, 3));
    let i1 = d.add_vertex(Vector3(px(4), px(5), 0), Color::rgb(4, 5, 6));
    assert_eq!(i0, 0);
    assert_eq!(i1, 1);
    assert_eq!(d.vertex_count(), 2);
    assert_eq!(d.index_count(), 0);
    let v = &d.vertices()[0];
    assert_eq!(v.position, (px(1), px(2), 0));
    assert_eq!(v.color, Color::rgb(1, 2, 3));
    assert_eq!(v.tex, None);
}

#[test]
fn add_index_appends() {
    let mut d = fresh_handle();
    d.add_index(7);
    d.add_index(9);
    assert_eq!(d.indices().as_slice(), &[7, 9]);
}

#[test]
fn rect_emits_four_vertices_six_indices() {
    let mut d = fresh_handle();
    d.draw_rect(Vector2(px(10), px(20)), px(100), px(50), Color::red());
    assert_eq!(d.vertex_count(), 4);
    assert_eq!(d.index_count(), 6);
    let vs = d.vertices();
    assert_eq!(vs[0].position, (px(10), px(20), 0));
    assert_eq!(vs[1].position, (px(10), px(70), 0));
    assert_eq!(vs[2].position, (px(110), px(20), 0));
    assert_eq!(vs[3].position, (px(110), px(70), 0));
    assert_eq!(d.indices().as_slice(), &[0, 1, 2, 2, 1, 3]);
}

#[test]
fn rect_base_offsets_follow_earlier_geometry() {
    let mut d = fresh_handle();
    d.draw_rect(Vector2(0, 0), px(1), px(1), Color::white());
    d.draw_rect(Vector2(px(5), px(5)), px(1), px(1), Color::white());
    assert_eq!(d.vertex_count(), 8);
    assert_eq!(d.indices().as_slice(), &[0, 1, 2, 2, 1, 3, 4, 5, 6, 6, 5, 7]);
}

/// Twice the signed area of (a, b, c); y-up convention makes positive
/// counter-clockwise.
fn cross(a: (f64, f64), b: (f64, f64), c: (f64, f64)) -> f64 {
    (b.0 - a.0) * (c.1 - a.1) - (b.1 - a.1) * (c.0 - a.0)
}

#[test]
fn rect_triangles_are_ccw_in_ndc() {
    let mut d = fresh_handle();
    d.draw_rect(Vector2(px(10), px(20)), px(100), px(50), Color::red());
    let ndc = d.to_ndc();
    let p = |i: usize| (ndc[i].0 as f64 / SCALE as f64, ndc[i].1 as f64 / SCALE as f64);
    let idx = d.indices();
    let t1 = cross(
        p(idx[0] as usize),
        p(idx[1] as usize),
        p(idx[2] as usize),
    );
    let t2 = cross(
        p(idx[3] as usize),
        p(idx[4] as usize),
        p(idx[5] as usize),
    );
    assert!(t1 > 0.0, "first triangle not counter-clockwise: {t1}");
    assert!(t2 > 0.0, "second triangle not counter-clockwise: {t2}");
}

#[test]
fn rect_lines_emits_four_strips() {
    let mut d = fresh_handle();
    d.draw_rect_lines(Vector2(px(10), px(10)), px(100), px(80), px(4), Color::blue());
    assert_eq!(d.vertex_count(), 16);
    assert_eq!(d.index_count(), 24);
    let vs = d.vertices();
    // Top strip starts at the position, right strip starts at x + w - t.
    assert_eq!(vs[0].position, (px(10), px(10), 0));
    assert_eq!(vs[12].position, (px(106), px(10), 0));
}

#[test]
fn triangle_emits_three_vertices() {
    let mut d = fresh_handle();
    d.draw_triangle(
        Vector2(px(1), px(2)),
        Vector2(px(3), px(4)),
        Vector2(px(5), px(0)),
        Color::green(),
    );
    assert_eq!(d.vertex_count(), 3);
    assert_eq!(d.indices().as_slice(), &[0, 1, 2]);
    assert_eq!(d.vertices()[1].position, (px(3), px(4), 0));
}

#[test]
fn circle_with_few_segments_is_a_no_op() {
    let mut d = fresh_handle();
    d.draw_circle(Vector2(px(100), px(100)), px(50), Color::white(), 2);
    assert_eq!(d.vertex_count(), 0);
    assert_eq!(d.index_count(), 0);
    d.draw_circle(Vector2(px(100), px(100)), px(50), Color::white(), 0);
    assert_eq!(d.vertex_count(), 0);
    assert_eq!(d.index_count(), 0);
}

#[test]
fn circle_emits_center_plus_rim_and_fan() {
    let mut d = fresh_handle();
    let segments = 16;
    d.draw_circle(Vector2(px(100), px(100)), px(50), Color::white(), segments);
    assert_eq!(d.vertex_count(), segments + 1);
    assert_eq!(d.index_count(), 3 * segments);
    // Fan triangles all start at the center and wrap at the end.
    let idx = d.indices();
    for i in 0..segments {
        assert_eq!(idx[3 * i], 0);
        assert_eq!(idx[3 * i + 1] as usize, i + 1);
        let expected_next = if i + 1 == segments { 1 } else { i + 2 };
        assert_eq!(idx[3 * i + 2] as usize, expected_next);
    }
}

#[test]
fn circle_rim_is_equidistant_from_center() {
    let mut d = fresh_handle();
    let r = 100;
    let segments = 24;
    d.draw_circle(Vector2(px(300), px(300)), px(r), Color::white(), segments);
    let vs = d.vertices();
    let center = (px(300) as f64, px(300) as f64);
    for v in vs.iter().skip(1) {
        let dx = v.position.0 as f64 - center.0;
        let dy = v.position.1 as f64 - center.1;
        let dist = (dx * dx + dy * dy).sqrt() / SCALE as f64;
        let err = (dist - r as f64).abs();
        assert!(err < 0.01 * r as f64, "rim point off the circle: {dist} vs {r}");
    }
    // At the quarter turns the fixed-point sine is exact: rim vertex 6 of
    // 24 is straight up (pixel y shrinks upward), vertex 12 straight left.
    assert_eq!(vs[7].position, (px(300), px(200), 0));
    assert_eq!(vs[13].position, (px(200), px(300), 0));
}

#[test]
fn circle_first_rim_point_lies_to_the_right() {
    let mut d = fresh_handle();
    d.draw_circle(Vector2(px(300), px(300)), px(100), Color::white(), 8);
    // Rim vertex 0 is at angle 0: exactly center + (r, 0).
    let v = d.vertices()[1].position;
    assert_eq!(v, (px(400), px(300), 0));
}

#[test]
fn line_between_equal_points_is_a_no_op() {
    let mut d = fresh_handle();
    d.draw_line(Vector2(px(5), px(5)), Vector2(px(5), px(5)), px(3), Color::black());
    assert_eq!(d.vertex_count(), 0);
    assert_eq!(d.index_count(), 0);
}

#[test]
fn line_quad_has_segment_length_and_thickness() {
    let mut d = fresh_handle();
    // A 3-4-5 segment: 300 px by 400 px, so 500 px long.
    d.draw_line(Vector2(0, 0), Vector2(px(300), px(400)), px(20), Color::black());
    assert_eq!(d.vertex_count(), 4);
    assert_eq!(d.index_count(), 6);
    let vs = d.vertices();
    let p = |i: usize| (vs[i].position.0 as f64 / SCALE as f64, vs[i].position.1 as f64 / SCALE as f64);
    let dist = |a: (f64, f64), b: (f64, f64)| ((b.0 - a.0).powi(2) + (b.1 - a.1).powi(2)).sqrt();
    // Long edges equal the segment.
    assert!((dist(p(0), p(2)) - 500.0).abs() < 0.01);
    assert!((dist(p(1), p(3)) - 500.0).abs() < 0.01);
    // Short edges equal the thickness.
    assert!((dist(p(0), p(1)) - 20.0).abs() < 0.1);
    assert!((dist(p(2), p(3)) - 20.0).abs() < 0.1);
}

#[test]
fn line_quad_offsets_are_symmetric() {
    let mut d = fresh_handle();
    d.draw_line(Vector2(0, 0), Vector2(px(100), 0), px(10), Color::black());
    let vs = d.vertices();
    // Horizontal segment: the offset is vertical, +-5 px around y = 0.
    assert_eq!(vs[0].position.0, 0);
    assert_eq!(vs[1].position.0, 0);
    assert_eq!(vs[0].position.1, px(5));
    assert_eq!(vs[1].position.1, -px(5));
    assert_eq!(vs[2].position, (px(100), px(5), 0));
    assert_eq!(vs[3].position, (px(100), -px(5), 0));
}
