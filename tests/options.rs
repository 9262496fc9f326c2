use canvas_gpu::options::{cellular_automata_element_count, fractal_tree_element_count};
use canvas_gpu::ShapeType;

#[test]
fn shape_codes() {
    assert_eq!(ShapeType::from_code(0), ShapeType::Regular);
    assert_eq!(ShapeType::from_code(1), ShapeType::Star);
    assert_eq!(ShapeType::from_code(2), ShapeType::Spiral);
    assert_eq!(ShapeType::from_code(3), ShapeType::Regular);
    assert_eq!(ShapeType::from_code(u32::MAX), ShapeType::Regular);
}

#[test]
fn cellular_grid_counts() {
    assert_eq!(cellular_automata_element_count(0), 0);
    assert_eq!(cellular_automata_element_count(15), 0);
    assert_eq!(cellular_automata_element_count(64), 4);
    assert_eq!(cellular_automata_element_count(100), 6);
}

#[test]
fn fractal_tree_counts() {
    assert_eq!(fractal_tree_element_count(0, 3), 0);
    assert_eq!(fractal_tree_element_count(4, 3), 7);
    assert_eq!(fractal_tree_element_count(5, 2), 31);
    assert_eq!(fractal_tree_element_count(10, 2), 100);
    assert_eq!(fractal_tree_element_count(31, 7), 100);
}
