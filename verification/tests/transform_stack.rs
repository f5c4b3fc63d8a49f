use nalgebra_glm as glm;
use peppaint::TransformStack2D;

#[test]
fn a_new_stack_holds_the_identity_alone() {
    let stack: TransformStack2D<i32> = TransformStack2D::new(4, 1);
    assert_eq!(stack.get_stack(), &[1]);
    assert!(!stack.in_the_making());
    assert_eq!(stack.get_current_index(), 0);
    assert_eq!(stack.capacity(), 4);
    assert_eq!(stack.identity(), 1);
    assert!(!stack.full());
}

#[test]
fn three_models_fill_a_stack_of_four() {
    let mut stack: TransformStack2D<i32> = TransformStack2D::new(4, 1);
    stack.new_matrix();
    assert!(!stack.full());
    stack.new_matrix();
    assert!(!stack.full());
    stack.new_matrix();
    assert!(stack.in_the_making());
    assert_eq!(stack.get_stack().len(), 4);
    assert_eq!(stack.get_current_index(), 3);
    assert!(stack.full());
}

#[test]
fn a_model_begun_inside_another_starts_from_a_copy() {
    let mut stack: TransformStack2D<i32> = TransformStack2D::new(8, 1);
    stack.new_matrix();
    assert_eq!(stack.get_stack(), &[1, 1]);
    stack.set(&5);
    assert_eq!(stack.get_stack(), &[1, 5]);
    assert_eq!(stack.current(), 5);
    stack.new_matrix();
    assert_eq!(stack.get_stack(), &[1, 5, 5]);
    stack.set(&7);
    assert_eq!(stack.get_stack(), &[1, 5, 7]);
    assert_eq!(stack.get_current_index(), 2);
}

#[test]
fn done_pops_nothing_and_points_back_at_index_zero() {
    let mut stack: TransformStack2D<i32> = TransformStack2D::new(8, 1);
    stack.new_matrix();
    stack.set(&5);
    stack.done();
    assert!(!stack.in_the_making());
    assert_eq!(stack.get_stack(), &[1, 5]);
    assert_eq!(stack.get_current_index(), 0);
    assert_eq!(stack.current(), 1);
    stack.new_matrix();
    assert_eq!(stack.get_stack(), &[1, 5, 1]);
    assert_eq!(stack.get_current_index(), 2);
}

#[test]
fn set_outside_any_model_replaces_index_zero() {
    let mut stack: TransformStack2D<i32> = TransformStack2D::new(8, 1);
    stack.set(&9);
    assert_eq!(stack.get_stack(), &[9]);
    stack.on_new_painting();
    assert_eq!(stack.get_stack(), &[1]);
}

#[test]
fn a_new_painting_carries_the_model_that_is_being_built() {
    let mut stack: TransformStack2D<i32> = TransformStack2D::new(4, 1);
    stack.new_matrix();
    stack.set(&5);
    stack.new_matrix();
    stack.set(&7);
    stack.on_new_painting();
    assert_eq!(stack.get_stack(), &[1, 7]);
    assert_eq!(stack.get_current_index(), 1);
    assert!(stack.in_the_making());
}

#[test]
fn a_new_painting_outside_any_model_leaves_the_identity() {
    let mut stack: TransformStack2D<i32> = TransformStack2D::new(4, 1);
    stack.new_matrix();
    stack.set(&5);
    stack.done();
    stack.on_new_painting();
    assert_eq!(stack.get_stack(), &[1]);
    assert_eq!(stack.get_current_index(), 0);
    assert!(!stack.in_the_making());
}

#[test]
fn a_full_stack_has_room_again_after_a_new_painting() {
    let mut stack: TransformStack2D<i32> = TransformStack2D::new(4, 1);
    stack.new_matrix();
    stack.new_matrix();
    stack.new_matrix();
    stack.set(&3);
    assert!(stack.full());
    stack.on_new_painting();
    assert!(!stack.full());
    stack.new_matrix();
    assert_eq!(stack.get_stack(), &[1, 3, 3]);
    assert_eq!(stack.get_current_index(), 2);
}

#[test]
fn a_stack_of_matrices_carries_a_translation_over_a_new_painting() {
    let identity: glm::Mat3 = glm::identity();
    let mut stack = TransformStack2D::new(128, identity);
    stack.new_matrix();
    let moved = glm::translate2d(&stack.current(), &glm::vec2(3.0, 4.0));
    stack.set(&moved);
    assert_ne!(moved, identity);
    stack.on_new_painting();
    assert_eq!(stack.get_stack(), &[identity, moved]);
    assert_eq!(stack.get_current_index(), 1);
    assert!(stack.in_the_making());
}
