//! The tools a user can hold and the shapes they leave on the surface.

use vstd::prelude::*;
use crate::geometry::Point;
use crate::stroke::STROKE_CAP;

verus! {

/// The interaction mode of the pointer.
#[derive(Clone, Copy, Debug, PartialEq, Eq, Structural)]
pub enum Tools {
    /// Plain pointing: the surface ignores the pointer.
    Mouse,
    /// Panning.
    Hand,
    /// Freehand drawing.
    Pen,
}

/// Something to draw. Points count steps. A pixel size counts whole UI
/// units: a line is a tenth of it wide, and a circle has a tenth of it as
/// diameter.
#[derive(Debug, PartialEq, Eq)]
pub enum Shape {
    /// A filled rectangle: the canvas background.
    Rect { min: Point, max: Point },
    /// A stroke through `points`, in order.
    Line { points: Vec<Point>, pixel_size: i32 },
    /// A filled dot around `center`.
    Circle { center: Point, pixel_size: i32 },
}

/// What a [`Shape`] is, with its points as a sequence.
pub enum ShapeView {
    Rect { min: Point, max: Point },
    Line { points: Seq<Point>, pixel_size: i32 },
    Circle { center: Point, pixel_size: i32 },
}

impl ShapeView {
    /// If this is a line, it runs through no more points than the cap.
    pub open spec fn line_bounded(self) -> bool {
        self matches ShapeView::Line { points, .. } ==> points.len() <= STROKE_CAP
    }
}

impl View for Shape {
    type V = ShapeView;

    open spec fn view(&self) -> ShapeView {
        match *self {
            Shape::Rect { min, max } => ShapeView::Rect { min, max },
            Shape::Line { points, pixel_size } => ShapeView::Line { points: points@, pixel_size },
            Shape::Circle { center, pixel_size } => ShapeView::Circle { center, pixel_size },
        }
    }
}

/// The views of a list of shapes, in the same order.
pub open spec fn shape_views(shapes: Seq<Shape>) -> Seq<ShapeView> {
    shapes.map_values(|s: Shape| s@)
}

/// No shapes have no views.
pub proof fn lemma_shape_views_empty()
    ensures
        shape_views(Seq::empty()) == Seq::<ShapeView>::empty(),
{
    assert(shape_views(Seq::empty()) =~= Seq::<ShapeView>::empty());
}

/// A shape added at the end adds its view at the end.
pub proof fn lemma_shape_views_push(shapes: Seq<Shape>, shape: Shape)
    ensures
        shape_views(shapes.push(shape)) == shape_views(shapes).push(shape@),
{
    assert(shape_views(shapes.push(shape)) =~= shape_views(shapes).push(shape@));
}

/// The first `n` shapes have the first `n` views.
pub proof fn lemma_shape_views_take(shapes: Seq<Shape>, n: int)
    requires
        0 <= n <= shapes.len(),
    ensures
        shape_views(shapes.take(n)) == shape_views(shapes).take(n),
{
    assert(shape_views(shapes.take(n)) =~= shape_views(shapes).take(n));
}

} // verus!
