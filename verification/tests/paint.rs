use small_paint::geometry::{Offset, Point, UNIT};
use small_paint::input::{Button, Pointer};
use small_paint::shape::{Shape, Tools};
use small_paint::stroke::STROKE_CAP;
use small_paint::window::BaseWindow;

/// The position `x` and `y` whole units from the corner.
fn units(x: i32, y: i32) -> Point {
    Point { x: x * UNIT, y: y * UNIT }
}

/// A window with a canvas from (200, 150) to (600, 450) units, the pen in
/// hand, and the pointer put at `at` without a button down.
fn window_with_pointer(at: Point) -> BaseWindow {
    let mut window = BaseWindow::new();
    window.press(Button::Select(Tools::Mouse));
    window.update(Offset { x: 800 * UNIT, y: 600 * UNIT }, hover(at));
    window.press(Button::Select(Tools::Pen));
    window
}

fn hover(at: Point) -> Pointer {
    Pointer { moving: true, hover: Some(at), primary_down: false }
}

fn drag(at: Point) -> Pointer {
    Pointer { moving: true, hover: Some(at), primary_down: true }
}

#[test]
fn paint_on_the_canvas_draws_a_line_and_a_dot() {
    let at = units(400, 300);
    let mut window = window_with_pointer(at);
    window.paint();
    assert_eq!(
        window.shapes(),
        &vec![
            Shape::Line { points: vec![at], pixel_size: 10 },
            Shape::Circle { center: at, pixel_size: 10 },
        ]
    );
    assert_eq!(window.path_pos(), &vec![at]);
}

#[test]
fn the_second_paint_draws_a_segment_from_the_first() {
    let first = units(400, 300);
    let second = Point { x: 400 * UNIT + 41, y: 300 * UNIT + 22 };
    let mut window = window_with_pointer(first);
    window.paint();
    window.press(Button::Select(Tools::Mouse));
    window.track(hover(second));
    window.paint();
    assert_eq!(window.shapes().len(), 4);
    assert_eq!(window.shapes()[2], Shape::Line { points: vec![first, second], pixel_size: 10 });
    assert_eq!(window.shapes()[3], Shape::Circle { center: second, pixel_size: 10 });
    assert_eq!(window.path_pos(), &vec![second]);
}

#[test]
fn shapes_carry_the_pixel_size_of_their_time() {
    let at = units(400, 300);
    let mut window = window_with_pointer(at);
    window.set_pixel_size(3);
    window.paint();
    window.add_pixel_size(40);
    window.paint();
    assert_eq!(window.shapes()[0], Shape::Line { points: vec![at], pixel_size: 3 });
    assert_eq!(window.shapes()[1], Shape::Circle { center: at, pixel_size: 3 });
    assert_eq!(window.shapes()[2], Shape::Line { points: vec![at, at], pixel_size: 43 });
    assert_eq!(window.shapes()[3], Shape::Circle { center: at, pixel_size: 43 });
}

#[test]
fn paint_off_the_canvas_ends_the_stroke() {
    let mut window = window_with_pointer(units(400, 300));
    window.paint();
    window.press(Button::Select(Tools::Mouse));
    window.track(hover(units(100, 300)));
    window.paint();
    assert_eq!(window.shapes().len(), 2);
    assert!(window.path_pos().is_empty());
}

#[test]
fn paint_on_the_border_of_the_canvas_ends_the_stroke() {
    let borders = [
        units(200, 300),
        units(600, 300),
        units(400, 150),
        units(400, 450),
        units(200, 150),
        units(600, 450),
    ];
    for border in borders {
        let mut window = window_with_pointer(units(400, 300));
        window.paint();
        window.press(Button::Select(Tools::Mouse));
        window.track(hover(border));
        window.paint();
        assert_eq!(window.shapes().len(), 2);
        assert!(window.path_pos().is_empty());
    }
}

#[test]
fn paint_a_step_inside_the_border_draws() {
    let corners = [
        Point { x: 200 * UNIT + 1, y: 150 * UNIT + 1 },
        Point { x: 600 * UNIT - 1, y: 450 * UNIT - 1 },
    ];
    for corner in corners {
        let mut window = window_with_pointer(corner);
        window.paint();
        assert_eq!(window.shapes().len(), 2);
        assert_eq!(window.path_pos(), &vec![corner]);
    }
}

#[test]
fn paint_a_step_outside_the_border_ends_the_stroke() {
    let outside = [
        Point { x: 200 * UNIT - 1, y: 300 * UNIT },
        Point { x: 600 * UNIT + 1, y: 300 * UNIT },
        Point { x: 400 * UNIT, y: 150 * UNIT - 1 },
        Point { x: 400 * UNIT, y: 450 * UNIT + 1 },
    ];
    for at in outside {
        let mut window = window_with_pointer(units(400, 300));
        window.paint();
        window.press(Button::Select(Tools::Mouse));
        window.track(hover(at));
        window.paint();
        assert_eq!(window.shapes().len(), 2);
        assert!(window.path_pos().is_empty());
    }
}

#[test]
fn paint_without_a_pointer_does_nothing() {
    let mut window = window_with_pointer(units(400, 300));
    window.paint();
    window.track(Pointer { moving: true, hover: None, primary_down: false });
    assert_eq!(window.pointer_pos(), Point::zero());
    window.press(Button::Select(Tools::Mouse));
    window.track(hover(units(400, 300)));
    window.track(Pointer { moving: true, hover: None, primary_down: true });
    window.paint();
    assert_eq!(window.shapes().len(), 2);
    assert_eq!(window.path_pos(), &vec![units(400, 300)]);
}

#[test]
fn a_pointer_on_an_axis_counts_as_no_pointer() {
    let mut window = BaseWindow::new();
    window.draw_canvas(200, 200);
    assert_eq!(window.start_pos(), Point { x: -100, y: -100 });
    window.track(hover(Point { x: 0, y: 50 }));
    window.paint();
    assert!(window.shapes().is_empty());
    window.track(hover(Point { x: 50, y: 0 }));
    window.paint();
    assert!(window.shapes().is_empty());
    window.track(hover(Point { x: 50, y: 50 }));
    window.paint();
    assert_eq!(window.shapes().len(), 2);
}

#[test]
fn a_pointer_a_step_from_an_axis_is_a_pointer() {
    let mut window = BaseWindow::new();
    window.draw_canvas(200, 200);
    window.track(hover(Point { x: 1, y: 1 }));
    window.paint();
    assert_eq!(window.shapes().len(), 2);
    window.track(hover(Point { x: -1, y: 1 }));
    window.paint();
    assert_eq!(window.shapes().len(), 4);
}

#[test]
fn paint_before_a_canvas_is_laid_out_draws_nothing() {
    let mut window = BaseWindow::new();
    window.track(hover(Point { x: 5, y: 5 }));
    window.paint();
    assert!(window.shapes().is_empty());
    assert!(window.path_pos().is_empty());
}

#[test]
fn the_stroke_buffer_stays_below_its_cap() {
    let mut window = window_with_pointer(units(400, 300));
    for i in 0..100 {
        window.update(Offset { x: 0, y: 0 }, drag(Point { x: 300 * UNIT + i, y: 300 * UNIT }));
        assert!(window.path_pos().len() < STROKE_CAP);
        assert_eq!(window.shapes().len(), 2 * (i as usize + 1));
    }
    for shape in window.shapes() {
        match shape {
            Shape::Line { points, .. } => assert!(points.len() <= STROKE_CAP),
            Shape::Circle { .. } => {},
            Shape::Rect { .. } => panic!("a rectangle among the shapes"),
        }
    }
}

#[test]
fn paint_leaves_the_canvas_alone() {
    let mut window = window_with_pointer(units(400, 300));
    window.paint();
    assert_eq!(window.canvas(), &vec![Shape::Rect { min: units(200, 150), max: units(600, 450) }]);
    assert_eq!(window.start_pos(), units(200, 150));
    assert_eq!(window.end_pos(), units(600, 450));
    assert_eq!(window.pointer_pos(), units(400, 300));
}
