use peppaint::painter::MAX_INDICES;
use peppaint::painter::MAX_MODEL_MATS;
use peppaint::painter::MAX_VERTICES;
use peppaint::rounded_rect_ring;
use peppaint::Corner;
use peppaint::DrawType;
use peppaint::Painter;
use peppaint::PaintingVertex;

fn white(x: f32, y: f32, model: usize) -> PaintingVertex<f32> {
    PaintingVertex { pos: (x, y), color: (1.0, 1.0, 1.0, 1.0), model }
}

#[test]
fn the_standard_painter_starts_white_and_empty() {
    let p: Painter<f32, u8> = Painter::ne(0, 1.0);
    assert_eq!(p.painting().vertex_capacity(), MAX_VERTICES);
    assert_eq!(p.painting().index_capacity(), MAX_INDICES);
    assert_eq!(p.painting().draw_type(), DrawType::Dynamic);
    assert_eq!(p.transforms().capacity(), MAX_MODEL_MATS);
    assert_eq!(MAX_VERTICES, 10000);
    assert_eq!(MAX_INDICES, 7000);
    assert_eq!(MAX_MODEL_MATS, 128);
    assert!(p.painting().vertices().is_empty());
    assert_eq!(p.transforms().get_stack(), &[0]);
    let s = p.settings();
    assert_eq!(s.color, (1.0, 1.0, 1.0));
    assert_eq!(s.alpha, 1.0);
    assert!(s.foreground);
    assert!(s.fill);
}

#[test]
fn two_triangles_in_a_mesh_for_one_flush_once_in_between() {
    let mut p: Painter<f32, u8> = Painter::with_capacity(3, 3, 4, 0, 1.0);
    let first = p.triangle(0.0, 0.0, 1.0, 0.0, 0.0, 1.0);
    assert!(first.is_none());
    assert!(p.painting().full());
    let second = p.triangle(5.0, 5.0, 6.0, 5.0, 5.0, 6.0);
    let batch = second.expect("the second triangle finds the mesh full");
    assert_eq!(batch.vertices, vec![white(0.0, 0.0, 0), white(1.0, 0.0, 0), white(0.0, 1.0, 0)]);
    assert_eq!(batch.indices, vec![0, 1, 2]);
    assert_eq!(batch.models, vec![0]);
    assert_eq!(
        p.painting().vertices(),
        &[white(5.0, 5.0, 0), white(6.0, 5.0, 0), white(5.0, 6.0, 0)]
    );
    assert_eq!(p.painting().indices(), &[0, 1, 2]);
}

#[test]
fn a_shape_that_has_not_the_room_opens_the_next_batch() {
    let mut p: Painter<f32, u8> = Painter::with_capacity(5, 9, 4, 0, 1.0);
    assert!(p.triangle(0.0, 0.0, 1.0, 0.0, 0.0, 1.0).is_none());
    assert!(!p.painting().full());
    let batch = p.quad(0.0, 0.0, 1.0, 0.0, 1.0, 1.0, 0.0, 1.0).expect("no room for a quad");
    assert_eq!(batch.vertices.len(), 3);
    assert_eq!(batch.indices, vec![0, 1, 2]);
    assert_eq!(p.painting().vertices().len(), 4);
    assert_eq!(p.painting().indices(), &[0, 2, 1, 0, 3, 2]);
}

#[test]
fn shapes_share_a_batch_while_they_fit() {
    let mut p: Painter<f32, u8> = Painter::ne(0, 1.0);
    assert!(p.triangle(0.0, 0.0, 1.0, 0.0, 0.0, 1.0).is_none());
    assert!(p.quad(0.0, 0.0, 1.0, 0.0, 1.0, 1.0, 0.0, 1.0).is_none());
    assert!(p.fan(0.0, 0.0, &[(1.0, 0.0), (0.0, 1.0), (-1.0, 0.0)]).is_none());
    assert_eq!(p.painting().vertices().len(), 11);
    assert_eq!(p.painting().indices(), &[0, 1, 2, 3, 5, 4, 3, 6, 5, 7, 8, 9, 7, 9, 10]);
    assert_eq!(p.painting().vertices()[8], white(1.0, 0.0, 0));
}

#[test]
fn vertices_carry_colour_alpha_and_the_current_matrix() {
    let mut p: Painter<f32, u8> = Painter::ne(0, 1.0);
    p.color_alpha(0.5, 0.25, 0.125, 0.75);
    assert_eq!(
        p.make_vertex(2.0, 3.0),
        PaintingVertex { pos: (2.0, 3.0), color: (0.5, 0.25, 0.125, 0.75), model: 0 }
    );
    assert!(p.new_model().is_none());
    assert!(p.new_model().is_none());
    assert_eq!(p.make_vertex(2.0, 3.0).model, 2);
    p.end_model();
    assert_eq!(p.make_vertex(2.0, 3.0).model, 0);
    p.color(0.1, 0.2, 0.3);
    assert_eq!(p.make_vertex(0.0, 0.0).color, (0.1, 0.2, 0.3, 1.0));
    p.alpha(0.5);
    assert_eq!(p.make_vertex(0.0, 0.0).color, (0.1, 0.2, 0.3, 0.5));
    p.grey(0.4);
    assert_eq!(p.make_vertex(0.0, 0.0).color, (0.4, 0.4, 0.4, 1.0));
}

#[test]
fn style_calls_change_the_drawing_state_alone() {
    let mut p: Painter<f32, u8> = Painter::ne(0, 1.0);
    p.triangle(0.0, 0.0, 1.0, 0.0, 0.0, 1.0);
    p.nofill();
    p.do_background();
    assert!(!p.settings().fill);
    assert!(!p.settings().foreground);
    assert_eq!(p.painting().vertices().len(), 3);
    let batch = p.paint();
    assert!(!batch.fill);
    assert!(!batch.foreground);
    assert!(!p.settings().fill);
    p.fill();
    p.do_foreground();
    assert!(p.settings().fill);
    assert!(p.settings().foreground);
    let batch = p.paint();
    assert!(batch.fill);
    assert!(batch.foreground);
    assert!(batch.vertices.is_empty());
}

#[test]
fn paint_hands_the_batch_out_and_starts_the_next() {
    let mut p: Painter<f32, u8> = Painter::ne(0, 1.0);
    p.new_model();
    p.set_model(&9);
    p.triangle(0.0, 0.0, 1.0, 0.0, 0.0, 1.0);
    p.end_model();
    let batch = p.paint();
    assert_eq!(batch.vertices, vec![white(0.0, 0.0, 1), white(1.0, 0.0, 1), white(0.0, 1.0, 1)]);
    assert_eq!(batch.indices, vec![0, 1, 2]);
    assert_eq!(batch.models, vec![0, 9]);
    assert!(p.painting().vertices().is_empty());
    assert!(p.painting().indices().is_empty());
    assert_eq!(p.transforms().get_stack(), &[0]);
    assert_eq!(p.painting().vertex_capacity(), MAX_VERTICES);
}

#[test]
fn a_model_that_straddles_a_flush_keeps_its_matrix() {
    let mut p: Painter<f32, u8> = Painter::with_capacity(3, 3, 8, 0, 1.0);
    p.new_model();
    p.new_model();
    p.set_model(&7);
    assert_eq!(p.model(), 7);
    assert!(p.triangle(0.0, 0.0, 1.0, 0.0, 0.0, 1.0).is_none());
    let batch = p.triangle(5.0, 5.0, 6.0, 5.0, 5.0, 6.0).expect("the mesh is full");
    assert_eq!(batch.models, vec![0, 0, 7]);
    assert_eq!(batch.vertices[0].model, 2);
    assert_eq!(p.transforms().get_stack(), &[0, 7]);
    assert!(p.transforms().in_the_making());
    assert_eq!(p.model(), 7);
    assert_eq!(
        p.painting().vertices(),
        &[white(5.0, 5.0, 1), white(6.0, 5.0, 1), white(5.0, 6.0, 1)]
    );
}

#[test]
fn a_fourth_model_on_a_stack_of_four_flushes_first() {
    let mut p: Painter<f32, u8> = Painter::with_capacity(30, 30, 4, 0, 1.0);
    assert!(p.new_model().is_none());
    assert!(p.new_model().is_none());
    assert!(p.new_model().is_none());
    p.set_model(&5);
    assert!(p.transforms().full());
    assert_eq!(p.transforms().get_current_index(), 3);
    p.triangle(0.0, 0.0, 1.0, 0.0, 0.0, 1.0);
    let batch = p.new_model().expect("the stack is full");
    assert_eq!(batch.models, vec![0, 0, 0, 5]);
    assert_eq!(batch.vertices.len(), 3);
    assert_eq!(batch.vertices[2].model, 3);
    assert_eq!(p.transforms().get_stack(), &[0, 5, 5]);
    assert_eq!(p.transforms().get_current_index(), 2);
    assert!(p.painting().vertices().is_empty());
}

#[test]
fn new_painting_drops_the_batch_undrawn() {
    let mut p: Painter<f32, u8> = Painter::ne(0, 1.0);
    p.triangle(0.0, 0.0, 1.0, 0.0, 0.0, 1.0);
    p.new_painting();
    assert!(p.painting().vertices().is_empty());
    assert!(p.painting().indices().is_empty());
    assert_eq!(p.transforms().get_stack(), &[0]);
}

#[test]
fn make_room_flushes_only_for_want_of_room() {
    let mut p: Painter<f32, u8> = Painter::with_capacity(6, 6, 4, 0, 1.0);
    p.triangle(0.0, 0.0, 1.0, 0.0, 0.0, 1.0);
    assert!(p.make_room(3, 3).is_none());
    assert_eq!(p.painting().vertices().len(), 3);
    let batch = p.make_room(4, 3).expect("three vertices are left, four are asked for");
    assert_eq!(batch.vertices.len(), 3);
    assert!(p.painting().vertices().is_empty());
}

#[test]
fn a_fan_tags_its_ring_like_its_centre() {
    let mut p: Painter<f32, u8> = Painter::ne(0, 1.0);
    p.new_model();
    let ring = [(1.0, 0.0), (0.0, 1.0), (-1.0, 0.0), (1.0, 0.0)];
    assert!(p.fan(0.0, 0.0, &ring).is_none());
    assert_eq!(
        p.painting().vertices(),
        &[white(0.0, 0.0, 1), white(1.0, 0.0, 1), white(0.0, 1.0, 1), white(-1.0, 0.0, 1), white(1.0, 0.0, 1)]
    );
    assert_eq!(p.painting().indices(), &[0, 1, 2, 0, 2, 3, 0, 3, 4]);
}

fn rounded_rect(
    p: &mut Painter<f32, u8>,
    x: f32,
    y: f32,
    width: f32,
    height: f32,
    rad: f32,
    prec: usize,
) {
    let m = (x + width / 2.0, y + height / 2.0);
    let step = 2.0 * 3.141592 / ((4 * prec) as f32);
    let mut total = 0f32;
    let mut circle: Vec<(f32, f32)> = Vec::new();
    for _ in 0..(prec * 4) {
        circle.push((rad * total.cos(), rad * total.sin()));
        total += step;
    }
    let ring: Vec<(f32, f32)> = rounded_rect_ring(prec)
        .iter()
        .map(|point| {
            let centre = match point.corner {
                Corner::BottomLeft => (x + rad, y + rad),
                Corner::BottomRight => (x + width - rad, y + rad),
                Corner::TopRight => (x + width - rad, y + height - rad),
                Corner::TopLeft => (x + rad, y + height - rad),
            };
            (centre.0 + circle[point.sample].0, centre.1 + circle[point.sample].1)
        })
        .collect();
    let flushed = p.fan(m.0, m.1, &ring);
    assert!(flushed.is_none());
}

#[test]
fn a_rounded_rectangle_is_one_closed_fan_of_twenty_one_ring_points() {
    let mut p: Painter<f32, u8> = Painter::ne(0, 1.0);
    rounded_rect(&mut p, 0.0, 0.0, 10.0, 10.0, 2.0, 4);
    let vertices = p.painting().vertices();
    assert_eq!(vertices.len(), 1 + 21);
    assert_eq!(vertices[0].pos, (5.0, 5.0));
    let ring = &vertices[1..];
    assert_eq!(ring.len(), 21);
    assert_eq!(ring[0].pos, ring[20].pos);
    assert_eq!(ring[0].pos, (10.0, 8.0));
    assert_eq!(ring[19].pos, (10.0, 2.0));
    let indices = p.painting().indices();
    assert_eq!(indices.len(), 3 * 20);
    for k in 0..20 {
        assert_eq!(&indices[3 * k..3 * k + 3], &[0, 1 + k as u32, 2 + k as u32]);
    }
}

#[test]
fn the_right_edge_of_a_rounded_rectangle_is_upright() {
    let mut p: Painter<f32, u8> = Painter::ne(0, 1.0);
    rounded_rect(&mut p, 0.0, 0.0, 10.0, 10.0, 2.0, 1);
    let vertices = p.painting().vertices();
    assert_eq!(vertices.len(), 1 + 9);
    let ring = &vertices[1..];
    assert_eq!(ring[7].pos, (10.0, 2.0));
    assert_eq!(ring[8].pos, (10.0, 8.0));
    assert_eq!(ring[7].pos.0, ring[8].pos.0);
}

#[test]
fn a_full_stack_and_a_full_mesh_at_once_lose_nothing() {
    let mut p: Painter<f32, u8> = Painter::with_capacity(3, 3, 4, 0, 1.0);
    p.new_model();
    p.new_model();
    p.new_model();
    p.set_model(&6);
    assert!(p.transforms().full());
    assert!(p.triangle(0.0, 0.0, 1.0, 0.0, 0.0, 1.0).is_none());
    assert!(p.painting().full());
    let batch = p.triangle(5.0, 5.0, 6.0, 5.0, 5.0, 6.0).expect("the mesh is full");
    assert_eq!(batch.models, vec![0, 0, 0, 6]);
    assert!(batch.vertices.iter().all(|v| v.model == 3));
    assert_eq!(p.transforms().get_stack(), &[0, 6]);
    assert!(!p.transforms().full());
    assert!(p.painting().vertices().iter().all(|v| v.model == 1));
    assert!(p.new_model().is_none());
    assert_eq!(p.transforms().get_stack(), &[0, 6, 6]);
    assert_eq!(p.make_vertex(0.0, 0.0).model, 2);
}

#[test]
fn a_fan_without_a_triangle_still_finds_a_full_mesh_flushed() {
    let mut p: Painter<f32, u8> = Painter::with_capacity(10, 3, 4, 0, 1.0);
    assert!(p.triangle(0.0, 0.0, 1.0, 0.0, 0.0, 1.0).is_none());
    assert!(p.painting().full());
    assert!(p.painting().fits(2, 0));
    let batch = p.fan(5.0, 5.0, &[(6.0, 5.0)]).expect("the mesh is full");
    assert_eq!(batch.vertices.len(), 3);
    assert_eq!(batch.indices, vec![0, 1, 2]);
    assert_eq!(p.painting().vertices(), &[white(5.0, 5.0, 0), white(6.0, 5.0, 0)]);
    assert!(p.painting().indices().is_empty());
    assert!(p.fan(7.0, 7.0, &[]).is_none());
    assert_eq!(p.painting().vertices().len(), 3);
}

#[test]
fn make_room_flushes_a_full_mesh_even_for_nothing() {
    let mut p: Painter<f32, u8> = Painter::with_capacity(10, 3, 4, 0, 1.0);
    p.triangle(0.0, 0.0, 1.0, 0.0, 0.0, 1.0);
    assert!(p.painting().full());
    let batch = p.make_room(0, 0).expect("the mesh is full");
    assert_eq!(batch.indices, vec![0, 1, 2]);
    assert!(p.painting().vertices().is_empty());
    assert!(p.make_room(0, 0).is_none());
}
