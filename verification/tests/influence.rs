use gpu_skinning::geometry::Point;
use gpu_skinning::influence::{count_vertices, WeightedPoint};

fn points(count: usize) -> Vec<WeightedPoint> {
    vec![WeightedPoint { position: Point::origin(), weight: 1 }; count]
}

#[test]
fn count_vertices_follows_the_layout() {
    assert_eq!(count_vertices(&vec![], &points(0), 0), Some(0));
    assert_eq!(count_vertices(&vec![1, 0], &points(1), 1), Some(1));
    assert_eq!(count_vertices(&vec![1, 0, 2, 1, 0], &points(3), 2), Some(2));
    assert_eq!(count_vertices(&vec![5, 0, 1, 2, 3, 4, 1, 5], &points(6), 6), Some(2));
    // a bone that is not there
    assert_eq!(count_vertices(&vec![1, 0], &points(1), 0), None);
    assert_eq!(count_vertices(&vec![1, 0, 2, 1, 2], &points(3), 2), None);
    // a count of zero
    assert_eq!(count_vertices(&vec![0], &points(0), 1), None);
    assert_eq!(count_vertices(&vec![1, 0, 0], &points(1), 1), None);
    // bones missing
    assert_eq!(count_vertices(&vec![1], &points(1), 1), None);
    assert_eq!(count_vertices(&vec![2, 0], &points(2), 1), None);
    assert_eq!(count_vertices(&vec![u32::MAX, 0], &points(1), 1), None);
    // weighted points missing, or left over
    assert_eq!(count_vertices(&vec![2, 0, 0], &points(1), 1), None);
    assert_eq!(count_vertices(&vec![2, 0, 0], &points(3), 1), None);
    assert_eq!(count_vertices(&vec![], &points(1), 1), None);
}
