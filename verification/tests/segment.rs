use beatsmr::segment::Segments;
use godot::builtin::Vector3;

#[test]
fn push_root_stores_and_reads_back_values() {
    let mut segments: Segments<Vector3, f32> = Segments::new();
    let direction = Vector3::new(1.0, 0.0, 0.0);
    let length = 2.5;

    let id = segments.push_root(direction, length);

    assert_eq!(id, 0);
    assert_eq!(segments.direction(id), Some(direction));
    assert_eq!(segments.length(id), Some(length));
    assert_eq!(segments.direction(9999), None);
    assert_eq!(segments.length(9999), None);
}

#[test]
fn roots_get_consecutive_ids_and_keep_their_values() {
    let mut segments: Segments<Vector3, f32> = Segments::new();
    let a = segments.push_root(Vector3::new(0.0, 1.0, 0.0), 1.0);
    let b = segments.push_root(Vector3::new(0.0, 0.0, 1.0), 3.0);
    let c = segments.push_root(Vector3::new(1.0, 1.0, 0.0), 0.5);
    assert_eq!((a, b, c), (0, 1, 2));
    assert_eq!(segments.direction(0), Some(Vector3::new(0.0, 1.0, 0.0)));
    assert_eq!(segments.direction(1), Some(Vector3::new(0.0, 0.0, 1.0)));
    assert_eq!(segments.length(2), Some(0.5));
    assert_eq!(segments.length(1), Some(3.0));
    assert_eq!(segments.length(3), None);
    assert_eq!(segments.direction(3), None);
}

#[test]
fn empty_segments_answer_nothing() {
    let segments: Segments<Vector3, f32> = Segments::new();
    assert_eq!(segments.direction(0), None);
    assert_eq!(segments.length(0), None);
}
