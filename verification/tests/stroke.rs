use small_paint::geometry::Point;
use small_paint::stroke::{copy_points, StrokeBuffer, STROKE_CAP};

#[test]
fn a_new_buffer_is_empty() {
    let buffer = StrokeBuffer::new();
    assert!(buffer.points().is_empty());
}

#[test]
fn the_first_record_gives_a_line_of_one_point() {
    let mut buffer = StrokeBuffer::new();
    let p = Point { x: 1, y: 2 };
    let line = buffer.record(p);
    assert_eq!(line, vec![p]);
    assert_eq!(buffer.points(), &vec![p]);
}

#[test]
fn later_records_give_segments_and_keep_the_last_point() {
    let mut buffer = StrokeBuffer::new();
    let a = Point { x: 1, y: 2 };
    let b = Point { x: 3, y: 4 };
    let c = Point { x: 5, y: 6 };
    buffer.record(a);
    assert_eq!(buffer.record(b), vec![a, b]);
    assert_eq!(buffer.points(), &vec![b]);
    assert_eq!(buffer.record(c), vec![b, c]);
    assert_eq!(buffer.points(), &vec![c]);
}

#[test]
fn the_buffer_stays_below_the_cap() {
    assert_eq!(STROKE_CAP, 2);
    let mut buffer = StrokeBuffer::new();
    for i in 1..50 {
        let line = buffer.record(Point { x: i, y: -i });
        assert!(line.len() <= STROKE_CAP);
        assert!(buffer.points().len() < STROKE_CAP);
    }
}

#[test]
fn clear_forgets_the_stroke() {
    let mut buffer = StrokeBuffer::new();
    buffer.record(Point { x: 1, y: 2 });
    buffer.clear();
    assert!(buffer.points().is_empty());
    let p = Point { x: 9, y: 9 };
    assert_eq!(buffer.record(p), vec![p]);
}

#[test]
fn copy_points_copies_every_point_in_order() {
    let points = vec![Point { x: 1, y: 2 }, Point { x: 3, y: 4 }, Point { x: -5, y: 0 }];
    assert_eq!(copy_points(&points), points);
    assert_eq!(copy_points(&Vec::new()), Vec::<Point>::new());
}
