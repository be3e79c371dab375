//! The window as a mathematical value, and what each operation makes of it.

use vstd::prelude::*;
use crate::geometry::{clamp, half, scaled, units_in, Offset, Point, UNIT};
use crate::input::{Button, Pointer};
use crate::pen::{positive, INITIAL_PIXEL_SIZE};
use crate::shape::{ShapeView, Tools};
use crate::stroke::{lemma_recorded_below_cap, recorded, STROKE_CAP};

verus! {

/// How many shapes the batch undo takes away at most.
pub const UNDO_BATCH: usize = 10;

/// The state of a window. Positions and lengths count steps, the pen's pixel
/// size counts whole UI units.
pub struct WindowView {
    /// Pen size of the strokes to come.
    pub pixel_size: i32,
    /// Canvas height, once the surface has been measured.
    pub height: Option<i32>,
    /// Canvas width, once the surface has been measured.
    pub width: Option<i32>,
    /// Upper left corner of the canvas.
    pub start_pos: Point,
    /// Lower right corner of the canvas.
    pub end_pos: Point,
    /// Size of the surface when it was measured.
    pub monitor_data: Offset,
    /// The stroke buffer: the latest pen positions of the running stroke.
    pub path_pos: Seq<Point>,
    /// The background, below all shapes.
    pub canvas: Seq<ShapeView>,
    /// Whether the background has been laid out.
    pub canvas_ready: bool,
    /// Everything drawn so far, oldest first.
    pub shapes: Seq<ShapeView>,
    /// Where a pan started.
    pub start_pointer_pos: Point,
    /// Where the pointer was last seen; zero when it left the surface.
    pub pointer_pos: Point,
    /// Scale of the canvas.
    pub zoom: i32,
    /// Anchor of the zoom.
    pub zoom_pos: Point,
    /// Centre of the canvas, once the surface has been measured.
    pub origin_pos: Option<Offset>,
    /// The tool in hand.
    pub tool: Tools,
}

impl WindowView {
    /// A fresh window: nothing measured, nothing drawn, the mouse in hand.
    pub open spec fn initial() -> WindowView {
        WindowView {
            pixel_size: INITIAL_PIXEL_SIZE,
            height: None,
            width: None,
            start_pos: Point::zero(),
            end_pos: Point::zero(),
            monitor_data: Offset::zero(),
            path_pos: Seq::empty(),
            canvas: Seq::empty(),
            canvas_ready: false,
            shapes: Seq::empty(),
            start_pointer_pos: Point::zero(),
            pointer_pos: Point::zero(),
            zoom: 1,
            zoom_pos: Point::zero(),
            origin_pos: None,
            tool: Tools::Mouse,
        }
    }

    /// The pen has a positive pixel size.
    pub open spec fn pen_positive(self) -> bool {
        self.pixel_size > 0
    }

    /// The stroke buffer is below its cap.
    pub open spec fn stroke_bounded(self) -> bool {
        self.path_pos.len() < STROKE_CAP
    }

    /// No line among the shapes runs through more points than the cap.
    pub open spec fn lines_bounded(self) -> bool {
        forall|i: int| 0 <= i < self.shapes.len() ==> (#[trigger] self.shapes[i]).line_bounded()
    }

    /// The pen given the pixel size `size`, and the minimum where `size` is
    /// not positive.
    pub open spec fn set_pixel_size(self, size: i32) -> WindowView {
        WindowView { pixel_size: positive(size), ..self }
    }

    /// The pen grown by `count`, and reset to the minimum where nothing
    /// would be left of it.
    pub open spec fn add_pixel_size(self, count: i32) -> WindowView {
        self.set_pixel_size(clamp(self.pixel_size + count))
    }

    /// The pen shrunk by `count`, and reset to the minimum where nothing
    /// would be left of it.
    pub open spec fn lower_pixel_size(self, count: i32) -> WindowView {
        self.set_pixel_size(clamp(self.pixel_size - count))
    }

    /// The newest `steps` shapes taken away, or all of them if there are
    /// fewer.
    pub open spec fn undo_many(self, steps: nat) -> WindowView {
        let kept = if steps >= self.shapes.len() { 0 } else { self.shapes.len() - steps };
        WindowView { shapes: self.shapes.take(kept), ..self }
    }

    /// The newest shape taken away, if there is one.
    pub open spec fn undo(self) -> WindowView {
        self.undo_many(1)
    }

    /// How far the canvas reaches from its centre along a side of length
    /// `extent`: half the side, scaled by the zoom.
    pub open spec fn reach(self, extent: i32) -> i32 {
        clamp(scaled(half(extent), self.zoom))
    }

    /// A canvas of the given size laid out and put on the background. Its
    /// corners are set off from the centre where the surface has been
    /// measured, and from the corners before where it has not.
    pub open spec fn draw_canvas(self, height: i32, width: i32) -> WindowView {
        let low = match self.origin_pos {
            Some(origin) => origin.to_point(),
            None => self.start_pos,
        };
        let high = match self.origin_pos {
            Some(origin) => origin.to_point(),
            None => self.end_pos,
        };
        let min = Point {
            x: clamp(low.x - self.reach(width)),
            y: clamp(low.y - self.reach(height)),
        };
        let max = Point {
            x: clamp(high.x + self.reach(width)),
            y: clamp(high.y + self.reach(height)),
        };
        WindowView {
            start_pos: min,
            end_pos: max,
            canvas: self.canvas.push(ShapeView::Rect { min, max }),
            ..self
        }
    }

    /// Whether the pointer is on the canvas, its border excluded.
    pub open spec fn pointer_on_canvas(self) -> bool {
        self.pointer_pos.strictly_inside(self.start_pos, self.end_pos)
    }

    /// The pen pressed down where the pointer is. On the canvas it leaves a
    /// line from the buffered points to the pointer and a dot at the pointer;
    /// off the canvas it ends the stroke; with no pointer it does nothing.
    pub open spec fn paint(self) -> WindowView {
        if !self.pointer_pos.is_present() {
            self
        } else if self.pointer_on_canvas() {
            WindowView {
                path_pos: recorded(self.path_pos, self.pointer_pos),
                shapes: self.shapes.push(
                    ShapeView::Line {
                        points: self.path_pos.push(self.pointer_pos),
                        pixel_size: self.pixel_size,
                    },
                ).push(ShapeView::Circle { center: self.pointer_pos, pixel_size: self.pixel_size }),
                ..self
            }
        } else {
            WindowView { path_pos: Seq::empty(), ..self }
        }
    }

    /// The displacement of a pan: from the pointer back to where the pan
    /// started.
    pub open spec fn pan_delta(self) -> Offset {
        self.start_pointer_pos.offset_from(self.pointer_pos)
    }

    /// Where the centre of a surface of the given length lies along one
    /// axis: at half the whole units of the length, itself cut down to whole
    /// units.
    pub open spec fn centre(available: i32) -> i32 {
        (half(units_in(available)) * UNIT) as i32
    }

    /// The surface measured, the first time only: the centre lies at half the
    /// available size, on whole units, and the canvas is as high and as wide
    /// as the centre is far from the corner.
    pub open spec fn measure(self, available: Offset) -> WindowView {
        if self.origin_pos is Some {
            self
        } else {
            let origin = Offset {
                x: WindowView::centre(available.x),
                y: WindowView::centre(available.y),
            };
            WindowView {
                monitor_data: available,
                origin_pos: Some(origin),
                height: Some(origin.y),
                width: Some(origin.x),
                ..self
            }
        }
    }

    /// The primary button held down with the tool in hand.
    pub open spec fn hold(self) -> WindowView {
        match self.tool {
            Tools::Pen => self.paint(),
            Tools::Hand => if self.start_pointer_pos.is_present() {
                WindowView { start_pointer_pos: self.pointer_pos, ..self }
            } else {
                self
            },
            Tools::Mouse => self,
        }
    }

    /// The primary button up with the tool in hand: the pen ends its stroke,
    /// the hand ends its pan.
    pub open spec fn release(self) -> WindowView {
        match self.tool {
            Tools::Pen => WindowView { path_pos: Seq::empty(), ..self },
            Tools::Hand => WindowView { start_pointer_pos: Point::zero(), ..self },
            Tools::Mouse => self,
        }
    }

    /// The pointer followed for one frame. A pointer at rest changes nothing;
    /// one that left the window is put at the zero point; one that hovers is
    /// taken over and the tool in hand set to work.
    pub open spec fn track(self, pointer: Pointer) -> WindowView {
        if !pointer.moving {
            self
        } else {
            match pointer.hover {
                None => WindowView { pointer_pos: Point::zero(), ..self },
                Some(at) => {
                    let seen = WindowView { pointer_pos: at, ..self };
                    if pointer.primary_down {
                        seen.hold()
                    } else {
                        seen.release()
                    }
                },
            }
        }
    }

    /// Whether a canvas is still to be laid out: its size is known and it is
    /// not ready.
    pub open spec fn canvas_due(self) -> bool {
        self.height is Some && self.width is Some && !self.canvas_ready
    }

    /// The canvas laid out if it is due.
    pub open spec fn prepare_canvas(self) -> WindowView {
        if self.canvas_due() {
            WindowView {
                canvas_ready: true,
                ..self.draw_canvas(self.height.unwrap(), self.width.unwrap())
            }
        } else {
            self
        }
    }

    /// One frame: measure the surface, follow the pointer, lay the canvas
    /// out.
    pub open spec fn update(self, available: Offset, pointer: Pointer) -> WindowView {
        self.measure(available).track(pointer).prepare_canvas()
    }

    /// A button pressed.
    pub open spec fn press(self, button: Button) -> WindowView {
        match button {
            Button::New => WindowView {
                height: None,
                width: None,
                path_pos: Seq::empty(),
                canvas: Seq::empty(),
                shapes: Seq::empty(),
                ..self
            },
            Button::IncreaseOne => self.add_pixel_size(1),
            Button::IncreaseTen => self.add_pixel_size(10),
            Button::ReduceOne => self.lower_pixel_size(1),
            Button::ReduceTen => self.lower_pixel_size(10),
            Button::Undo => self.undo(),
            Button::UndoBatch => self.undo_many(UNDO_BATCH as nat),
            Button::Clear => WindowView { shapes: Seq::empty(), ..self },
            Button::Select(tool) => WindowView { tool, ..self },
        }
    }
}

/// A fresh window has a positive pen, an empty stroke buffer and no lines.
pub proof fn lemma_initial_is_bounded()
    ensures
        WindowView::initial().pen_positive(),
        WindowView::initial().stroke_bounded(),
        WindowView::initial().lines_bounded(),
{
}

/// Whatever the pen is set to, grown by or lowered by, its pixel size is
/// positive afterwards.
pub proof fn lemma_changed_pen_is_positive(state: WindowView, count: i32)
    ensures
        state.set_pixel_size(count).pen_positive(),
        state.add_pixel_size(count).pen_positive(),
        state.lower_pixel_size(count).pen_positive(),
{
}

/// A change of the pen that leaves something of it is the plain sum, the
/// plain difference or the plain size.
pub proof fn lemma_changed_pen_is_exact(state: WindowView, count: i32)
    ensures
        0 < count ==> state.set_pixel_size(count).pixel_size == count,
        0 < state.pixel_size + count <= i32::MAX ==> state.add_pixel_size(count).pixel_size
            == state.pixel_size + count,
        0 < state.pixel_size - count <= i32::MAX ==> state.lower_pixel_size(count).pixel_size
            == state.pixel_size - count,
{
}

/// No button leaves a positive pen at or below zero.
pub proof fn lemma_press_keeps_pen_positive(state: WindowView, button: Button)
    requires
        state.pen_positive(),
    ensures
        state.press(button).pen_positive(),
{
}

/// A frame leaves the pen as it is.
pub proof fn lemma_update_keeps_pen(state: WindowView, available: Offset, pointer: Pointer)
    ensures
        state.update(available, pointer).pixel_size == state.pixel_size,
{
}

/// Undoing with no shape drawn changes nothing, however many steps are asked
/// for.
pub proof fn lemma_undo_of_nothing(state: WindowView, steps: nat)
    requires
        state.shapes.len() == 0,
    ensures
        state.undo() == state,
        state.undo_many(steps) == state,
{
    assert(state.undo_many(steps).shapes =~= state.shapes);
    assert(state.undo().shapes =~= state.shapes);
}

/// Undoing step by step is undoing all steps at once.
pub proof fn lemma_undo_many_is_repeated_undo(state: WindowView, steps: nat)
    ensures
        state.undo_many(0) == state,
        state.undo_many(steps).undo() == state.undo_many(steps + 1),
{
    assert(state.undo_many(0).shapes =~= state.shapes);
    assert(state.undo_many(steps).undo().shapes =~= state.undo_many(steps + 1).shapes);
}

/// Painting leaves a stroke buffer that was below its cap below its cap, and
/// draws no line through more points than the cap.
pub proof fn lemma_paint_keeps_stroke_bounded(state: WindowView)
    requires
        state.stroke_bounded(),
    ensures
        state.paint().stroke_bounded(),
        state.lines_bounded() ==> state.paint().lines_bounded(),
{
    lemma_recorded_below_cap(state.path_pos, state.pointer_pos);
}

/// A frame leaves a stroke buffer that was below its cap below its cap.
pub proof fn lemma_update_keeps_stroke_bounded(
    state: WindowView,
    available: Offset,
    pointer: Pointer,
)
    requires
        state.stroke_bounded(),
    ensures
        state.update(available, pointer).stroke_bounded(),
        state.lines_bounded() ==> state.update(available, pointer).lines_bounded(),
{
    let measured = state.measure(available);
    match pointer.hover {
        Some(at) => {
            let seen = WindowView { pointer_pos: at, ..measured };
            lemma_paint_keeps_stroke_bounded(seen);
        },
        None => {},
    }
}

/// No button lifts a stroke buffer that was below its cap to the cap, nor
/// brings a line through more points than the cap among the shapes.
pub proof fn lemma_press_keeps_stroke_bounded(state: WindowView, button: Button)
    requires
        state.stroke_bounded(),
    ensures
        state.press(button).stroke_bounded(),
        state.lines_bounded() ==> state.press(button).lines_bounded(),
{
}

} // verus!
