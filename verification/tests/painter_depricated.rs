use peppaint::DepricPaintingVertex;
use peppaint::PainterDepricated;

fn at(x: f32, y: f32, z: f32, model: usize) -> DepricPaintingVertex<f32> {
    DepricPaintingVertex { pos: (x, y, z), col: (1.0, 1.0, 1.0, 1.0), model }
}

fn small(n_vertices: usize, n_indices: usize, n_models: usize) -> PainterDepricated<f32, u8> {
    PainterDepricated::with_capacity(n_vertices, n_indices, n_models, 0, 1.0, -0.999, 0.999)
}

#[test]
fn the_earlier_painter_starts_in_the_background() {
    let p: PainterDepricated<f32, u8> = PainterDepricated::ne(0, 1.0, -0.999, 0.999);
    assert_eq!(p.painting().vertex_capacity(), 10000);
    assert_eq!(p.painting().index_capacity(), 7000);
    assert_eq!(p.models().len(), 128);
    assert!(p.models().iter().all(|m| *m == 0));
    assert_eq!(p.model_ptr(), 0);
    assert_eq!(p.current_model_ptr(), 0);
    assert!(!p.making_model());
    assert!(p.is_filling());
    assert_eq!(p.z(), -0.999);
    assert_eq!(p.make_vertex(1.0, 2.0), at(1.0, 2.0, -0.999, 0));
}

#[test]
fn depth_and_colour_go_into_the_vertices() {
    let mut p = small(30, 30, 4);
    p.do_foreground();
    assert_eq!(p.make_vertex(1.0, 2.0), at(1.0, 2.0, 0.999, 0));
    p.set_z(0.5);
    assert_eq!(p.z(), 0.5);
    p.do_background();
    assert_eq!(p.z(), -0.999);
    p.color_alpha(0.5, 0.25, 0.125, 0.75);
    assert_eq!(p.make_vertex(0.0, 0.0).col, (0.5, 0.25, 0.125, 0.75));
    p.color(0.1, 0.2, 0.3);
    assert_eq!(p.make_vertex(0.0, 0.0).col, (0.1, 0.2, 0.3, 1.0));
    p.grey(0.4);
    assert_eq!(p.make_vertex(0.0, 0.0).col, (0.4, 0.4, 0.4, 1.0));
    p.nofill();
    assert!(!p.is_filling());
    assert!(!p.paint().fill);
    p.fill();
    assert!(p.paint().fill);
}

#[test]
fn models_take_one_slot_after_the_other() {
    let mut p = small(30, 30, 8);
    assert!(p.new_clean_model().is_none());
    p.set_model(&5);
    assert_eq!(p.get_model(), 5);
    assert_eq!(p.model_ptr(), 1);
    assert_eq!(p.current_model_ptr(), 1);
    assert!(p.new_similar_model().is_none());
    assert_eq!(p.get_model(), 5);
    assert_eq!(p.model_ptr(), 2);
    p.set_model(&7);
    assert!(p.new_model().is_none());
    assert_eq!(p.model_ptr(), 3);
    assert_eq!(p.make_vertex(0.0, 0.0).model, 3);
    p.ident_model();
    assert_eq!(&p.models()[..4], &[0, 5, 7, 0]);
    p.end_modelling();
    assert!(!p.making_model());
    assert_eq!(p.model_ptr(), 3);
    assert_eq!(p.current_model_ptr(), 0);
    assert_eq!(p.make_vertex(0.0, 0.0).model, 0);
}

#[test]
fn the_earlier_painter_flushes_for_want_of_room() {
    let mut p = small(3, 3, 4);
    assert!(p.triangle(0.0, 0.0, 1.0, 0.0, 0.0, 1.0).is_none());
    let batch = p.triangle(5.0, 5.0, 6.0, 5.0, 5.0, 6.0).expect("the mesh is full");
    assert_eq!(
        batch.vertices,
        vec![at(0.0, 0.0, -0.999, 0), at(1.0, 0.0, -0.999, 0), at(0.0, 1.0, -0.999, 0)]
    );
    assert_eq!(batch.indices, vec![0, 1, 2]);
    assert_eq!(batch.models, vec![0]);
    assert_eq!(p.painting().vertices().len(), 3);
    assert_eq!(p.painting().vertices()[0], at(5.0, 5.0, -0.999, 0));
}

#[test]
fn a_flush_moves_the_model_that_is_being_built_to_slot_one() {
    let mut p = small(4, 6, 8);
    p.new_clean_model();
    p.new_clean_model();
    p.new_clean_model();
    p.set_model(&9);
    assert!(p.quad(0.0, 0.0, 1.0, 0.0, 1.0, 1.0, 0.0, 1.0).is_none());
    let batch = p.quad(0.0, 0.0, 1.0, 0.0, 1.0, 1.0, 0.0, 1.0).expect("the mesh is full");
    assert_eq!(batch.models, vec![0, 0, 0, 9]);
    assert_eq!(batch.vertices[0].model, 3);
    assert_eq!(batch.indices, vec![0, 2, 1, 0, 3, 2]);
    assert_eq!(p.model_ptr(), 1);
    assert_eq!(p.current_model_ptr(), 1);
    assert!(p.making_model());
    assert_eq!(p.get_model(), 9);
    assert_eq!(p.painting().vertices()[0].model, 1);
}

#[test]
fn a_model_beyond_the_last_slot_flushes_first() {
    let mut p = small(30, 30, 4);
    p.new_clean_model();
    p.new_clean_model();
    p.new_clean_model();
    p.set_model(&5);
    p.triangle(0.0, 0.0, 1.0, 0.0, 0.0, 1.0);
    let batch = p.new_similar_model().expect("all slots are in use");
    assert_eq!(batch.models, vec![0, 0, 0, 5]);
    assert_eq!(batch.vertices.len(), 3);
    assert_eq!(p.model_ptr(), 2);
    assert_eq!(p.get_model(), 5);
    assert_eq!(&p.models()[..3], &[0, 5, 5]);
    assert!(p.painting().vertices().is_empty());
}

#[test]
fn outside_any_model_a_flush_leaves_slot_zero_in_use() {
    let mut p = small(30, 30, 4);
    p.new_clean_model();
    p.end_modelling();
    p.fan(0.0, 0.0, &[(1.0, 0.0), (0.0, 1.0), (1.0, 0.0)]);
    assert_eq!(p.painting().indices(), &[0, 1, 2, 0, 2, 3]);
    let batch = p.paint();
    assert_eq!(batch.models, vec![0, 0]);
    assert_eq!(batch.vertices.len(), 4);
    assert_eq!(p.model_ptr(), 0);
    p.triangle(0.0, 0.0, 1.0, 0.0, 0.0, 1.0);
    p.new_painting();
    assert!(p.painting().vertices().is_empty());
    assert!(p.make_room(30, 30).is_none());
}

#[test]
fn the_earlier_painter_flushes_a_full_mesh_for_a_fan_without_a_triangle() {
    let mut p = small(10, 3, 4);
    assert!(p.triangle(0.0, 0.0, 1.0, 0.0, 0.0, 1.0).is_none());
    assert!(p.painting().full());
    assert!(p.painting().fits(2, 0));
    let batch = p.fan(5.0, 5.0, &[(6.0, 5.0)]).expect("the mesh is full");
    assert_eq!(batch.vertices.len(), 3);
    assert_eq!(batch.indices, vec![0, 1, 2]);
    assert_eq!(
        p.painting().vertices(),
        &[at(5.0, 5.0, -0.999, 0), at(6.0, 5.0, -0.999, 0)]
    );
    assert!(p.painting().indices().is_empty());
    let batch = p.make_room(0, 0);
    assert!(batch.is_none());
}
