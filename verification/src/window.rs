//! The window itself: the state behind the surface and the operations that
//! the toolbar and the pointer perform on it.

use vstd::prelude::*;
use crate::geometry::{
    add_clamped, count_units, halve, scale_clamped, sub_clamped, Offset, Point, UNIT,
};
use crate::input::{Button, Pointer};
use crate::model::{
    lemma_undo_many_is_repeated_undo, lemma_undo_of_nothing, WindowView, UNDO_BATCH,
};
use crate::pen::Pen;
use crate::shape::{
    lemma_shape_views_empty, lemma_shape_views_push, lemma_shape_views_take, shape_views, Shape,
    ShapeView, Tools,
};
use crate::stroke::{StrokeBuffer, STROKE_CAP};

verus! {

/// A paint window. Its pen has a positive pixel size and its stroke buffer
/// is below its cap, whatever is done with it.
pub struct BaseWindow {
    pixel_size: Pen,
    height: Option<i32>,
    width: Option<i32>,
    start_pos: Point,
    end_pos: Point,
    monitor_data: Offset,
    path_pos: StrokeBuffer,
    canvas: Vec<Shape>,
    canvas_ready: bool,
    shapes: Vec<Shape>,
    start_pointer_pos: Point,
    pointer_pos: Point,
    zoom: i32,
    zoom_pos: Point,
    origin_pos: Option<Offset>,
    tool: Tools,
}

impl View for BaseWindow {
    type V = WindowView;

    closed spec fn view(&self) -> WindowView {
        WindowView {
            pixel_size: self.pixel_size@,
            height: self.height,
            width: self.width,
            start_pos: self.start_pos,
            end_pos: self.end_pos,
            monitor_data: self.monitor_data,
            path_pos: self.path_pos@,
            canvas: shape_views(self.canvas@),
            canvas_ready: self.canvas_ready,
            shapes: shape_views(self.shapes@),
            start_pointer_pos: self.start_pointer_pos,
            pointer_pos: self.pointer_pos,
            zoom: self.zoom,
            zoom_pos: self.zoom_pos,
            origin_pos: self.origin_pos,
            tool: self.tool,
        }
    }
}

impl BaseWindow {
    /// A fresh window: nothing measured, nothing drawn, the mouse in hand.
    pub fn new() -> (w: BaseWindow)
        ensures
            w@ == WindowView::initial(),
            w@.pen_positive(),
            w@.stroke_bounded(),
    {
        proof {
            lemma_shape_views_empty();
        }
        BaseWindow {
            pixel_size: Pen::new(),
            height: None,
            width: None,
            start_pos: Point::zero(),
            end_pos: Point::zero(),
            monitor_data: Offset::zero(),
            path_pos: StrokeBuffer::new(),
            canvas: Vec::new(),
            canvas_ready: false,
            shapes: Vec::new(),
            start_pointer_pos: Point::zero(),
            pointer_pos: Point::zero(),
            zoom: 1,
            zoom_pos: Point::zero(),
            origin_pos: None,
            tool: Tools::Mouse,
        }
    }

    /// Advances the window by one frame: measures the surface if that is
    /// still to be done, follows the pointer, and lays the canvas out once
    /// its size is known.
    pub fn update(&mut self, available: Offset, pointer: Pointer)
        ensures
            final(self)@ == old(self)@.update(available, pointer),
            final(self)@.origin_pos is Some,
            !final(self)@.canvas_due(),
            final(self)@.pen_positive(),
            final(self)@.stroke_bounded(),
    {
        self.measure(available);
        self.track(pointer);
        self.prepare_canvas();
    }

    /// Measures the surface, the first time it is called. The available size
    /// is cut down to whole units, and the centre of the canvas is put at
    /// half of it, on whole units again, rounded toward zero. The canvas is
    /// made as high and as wide as the centre lies from the corner. Later
    /// calls change nothing.
    pub fn measure(&mut self, available: Offset)
        ensures
            final(self)@ == old(self)@.measure(available),
            final(self)@.origin_pos is Some,
            final(self)@.pen_positive(),
            final(self)@.stroke_bounded(),
    {
        proof {
            use_type_invariant(&self.pixel_size);
            use_type_invariant(&self.path_pos);
        }
        if self.origin_pos.is_none() {
            self.monitor_data = available;
            let origin_pos = Offset {
                x: halve(count_units(available.x)) * UNIT,
                y: halve(count_units(available.y)) * UNIT,
            };
            self.origin_pos = Some(origin_pos);
            self.height = Some(origin_pos.y);
            self.width = Some(origin_pos.x);
        }
    }

    /// Follows the pointer for one frame. A pointer at rest changes nothing.
    /// A pointer that left the window is put at the zero point. A pointer
    /// that hovers is taken over; with the primary button down the pen
    /// paints and the hand pans, with the button up the pen ends its stroke
    /// and the hand its pan. The mouse does neither.
    pub fn track(&mut self, pointer: Pointer)
        ensures
            final(self)@ == old(self)@.track(pointer),
            final(self)@.pen_positive(),
            final(self)@.stroke_bounded(),
    {
        proof {
            use_type_invariant(&self.pixel_size);
            use_type_invariant(&self.path_pos);
        }
        if pointer.moving {
            match pointer.hover {
                Some(at) => {
                    self.pointer_pos = at;
                    if pointer.primary_down {
                        match self.tool {
                            Tools::Pen => {
                                self.paint();
                            },
                            Tools::Hand => {
                                if self.start_pointer_pos.is_present() {
                                    self.start_pointer_pos = self.pointer_pos;
                                } else {
                                    let _ = self.move_shapes();
                                }
                            },
                            Tools::Mouse => {},
                        }
                    } else {
                        match self.tool {
                            Tools::Pen => {
                                self.path_pos.clear();
                            },
                            Tools::Hand => {
                                self.start_pointer_pos = Point::zero();
                            },
                            Tools::Mouse => {},
                        }
                    }
                },
                None => {
                    self.pointer_pos = Point::zero();
                },
            }
        }
    }

    /// Lays the canvas out if its size is known and it is not ready, and
    /// marks it ready.
    pub fn prepare_canvas(&mut self)
        ensures
            final(self)@ == old(self)@.prepare_canvas(),
            !final(self)@.canvas_due(),
            final(self)@.pen_positive(),
            final(self)@.stroke_bounded(),
    {
        proof {
            use_type_invariant(&self.pixel_size);
            use_type_invariant(&self.path_pos);
        }
        match (self.height, self.width) {
            (Some(height), Some(width)) => {
                if !self.canvas_ready {
                    self.draw_canvas(height, width);
                    self.canvas_ready = !self.canvas_ready;
                }
            },
            _ => {},
        }
    }

    /// Presses a button of the toolbar or of the tool panel.
    pub fn press(&mut self, button: Button)
        ensures
            final(self)@ == old(self)@.press(button),
            final(self)@.pen_positive(),
            final(self)@.stroke_bounded(),
    {
        proof {
            use_type_invariant(&self.pixel_size);
            use_type_invariant(&self.path_pos);
        }
        match button {
            Button::New => {
                self.height = None;
                self.width = None;
                self.path_pos.clear();
                self.canvas = Vec::new();
                self.shapes = Vec::new();
                proof {
                    lemma_shape_views_empty();
                }
            },
            Button::IncreaseOne => {
                self.add_pixel_size(1);
            },
            Button::IncreaseTen => {
                self.add_pixel_size(10);
            },
            Button::ReduceOne => {
                self.lower_pixel_size(1);
            },
            Button::ReduceTen => {
                self.lower_pixel_size(10);
            },
            Button::Undo => {
                self.undo();
            },
            Button::UndoBatch => {
                self.undo_many(UNDO_BATCH);
            },
            Button::Clear => {
                self.shapes = Vec::new();
                proof {
                    lemma_shape_views_empty();
                }
            },
            Button::Select(tool) => {
                self.tool = tool;
            },
        }
    }

    /// Presses the pen down where the pointer is. With the pointer strictly
    /// inside the canvas this draws a line from the buffered points to the
    /// pointer and a dot at the pointer, and the stroke goes on from there.
    /// With the pointer elsewhere the stroke ends. With no pointer nothing
    /// happens.
    pub fn paint(&mut self)
        ensures
            final(self)@ == old(self)@.paint(),
            old(self)@.pointer_pos.is_present() && old(self)@.pointer_on_canvas() ==> {
                &&& final(self)@.path_pos == seq![old(self)@.pointer_pos]
                &&& final(self)@.shapes.len() == old(self)@.shapes.len() + 2
            },
            final(self)@.pen_positive(),
            final(self)@.stroke_bounded(),
    {
        proof {
            use_type_invariant(&self.pixel_size);
            use_type_invariant(&self.path_pos);
        }
        if self.pointer_pos.is_present() {
            let pointer_pos = self.pointer_pos;
            if pointer_pos.strictly_inside(self.start_pos, self.end_pos) {
                let line = self.path_pos.record(pointer_pos);
                let pixel_size = self.pixel_size.pixel_size();
                let stroke = Shape::Line { points: line, pixel_size };
                let dot = Shape::Circle { center: pointer_pos, pixel_size };
                proof {
                    lemma_shape_views_push(self.shapes@, stroke);
                    lemma_shape_views_push(self.shapes@.push(stroke), dot);
                }
                self.shapes.push(stroke);
                self.shapes.push(dot);
            } else {
                self.path_pos.clear();
            }
        }
    }

    /// Lays out a canvas of the given size and puts it on the background.
    /// The canvas reaches half its size, scaled by the zoom, to each side of
    /// the centre; before the surface has been measured it grows by as much
    /// from the corners it had. Coordinates stop at the ends of their range.
    pub fn draw_canvas(&mut self, height: i32, width: i32)
        ensures
            final(self)@ == old(self)@.draw_canvas(height, width),
            final(self)@.canvas.len() == old(self)@.canvas.len() + 1,
            final(self)@.canvas.last() == (ShapeView::Rect {
                min: final(self)@.start_pos,
                max: final(self)@.end_pos,
            }),
            final(self)@.pen_positive(),
            final(self)@.stroke_bounded(),
    {
        proof {
            use_type_invariant(&self.pixel_size);
            use_type_invariant(&self.path_pos);
        }
        let half_height = halve(height);
        let half_width = halve(width);
        match self.origin_pos {
            Some(origin) => {
                self.start_pos = origin.to_point();
                self.end_pos = origin.to_point();
            },
            None => {},
        }
        self.start_pos.x = sub_clamped(self.start_pos.x, scale_clamped(half_width, self.zoom));
        self.start_pos.y = sub_clamped(self.start_pos.y, scale_clamped(half_height, self.zoom));
        self.end_pos.x = add_clamped(self.end_pos.x, scale_clamped(half_width, self.zoom));
        self.end_pos.y = add_clamped(self.end_pos.y, scale_clamped(half_height, self.zoom));
        let shape = Shape::Rect {
            min: Point { x: self.start_pos.x, y: self.start_pos.y },
            max: Point { x: self.end_pos.x, y: self.end_pos.y },
        };
        proof {
            lemma_shape_views_push(self.canvas@, shape);
        }
        self.canvas.push(shape);
    }

    /// Works out how far a pan has come: the displacement from the pointer
    /// back to where the pan started. The window stays as it is.
    pub fn move_shapes(&mut self) -> (difference_pos: Offset)
        ensures
            difference_pos == old(self)@.pan_delta(),
            final(self)@ == old(self)@,
            final(self)@.pen_positive(),
            final(self)@.stroke_bounded(),
    {
        proof {
            use_type_invariant(&self.pixel_size);
            use_type_invariant(&self.path_pos);
        }
        self.start_pointer_pos.offset_from(self.pointer_pos)
    }

    /// Grows the pen by `count`. The pixel size stops at the top of its
    /// range, and a pen that would be left with no size at all is reset to
    /// the minimum, so the size is positive afterwards.
    pub fn add_pixel_size(&mut self, count: i32)
        ensures
            final(self)@ == old(self)@.add_pixel_size(count),
            0 < old(self)@.pixel_size + count <= i32::MAX ==> final(self)@.pixel_size == old(
                self,
            )@.pixel_size + count,
            final(self)@.pen_positive(),
            final(self)@.stroke_bounded(),
    {
        proof {
            use_type_invariant(&self.pixel_size);
            use_type_invariant(&self.path_pos);
        }
        let sum = add_clamped(self.pixel_size.pixel_size(), count);
        self.pixel_size.set(sum);
    }

    /// Shrinks the pen by `count`. A pen that would be left with no size at
    /// all is reset to the minimum, so the size is positive afterwards.
    pub fn lower_pixel_size(&mut self, count: i32)
        ensures
            final(self)@ == old(self)@.lower_pixel_size(count),
            0 < old(self)@.pixel_size - count <= i32::MAX ==> final(self)@.pixel_size == old(
                self,
            )@.pixel_size - count,
            final(self)@.pen_positive(),
            final(self)@.stroke_bounded(),
    {
        proof {
            use_type_invariant(&self.pixel_size);
            use_type_invariant(&self.path_pos);
        }
        let rest = sub_clamped(self.pixel_size.pixel_size(), count);
        self.pixel_size.set(rest);
    }

    /// Takes the newest `steps` shapes away, one after the other, and stops
    /// early when none is left.
    pub fn undo_many(&mut self, steps: usize)
        ensures
            final(self)@ == old(self)@.undo_many(steps as nat),
            old(self)@.shapes.len() == 0 ==> final(self)@ == old(self)@,
            final(self)@.shapes.len() + steps >= old(self)@.shapes.len(),
            final(self)@.pen_positive(),
            final(self)@.stroke_bounded(),
    {
        proof {
            use_type_invariant(&self.pixel_size);
            use_type_invariant(&self.path_pos);
            lemma_undo_many_is_repeated_undo(old(self)@, 0);
        }
        let mut done: usize = 0;
        while done < steps
            invariant
                done <= steps,
                self@ == old(self)@.undo_many(done as nat),
            decreases steps - done,
        {
            proof {
                lemma_undo_many_is_repeated_undo(old(self)@, done as nat);
            }
            self.undo();
            done += 1;
        }
        proof {
            use_type_invariant(&self.pixel_size);
            use_type_invariant(&self.path_pos);
            if old(self)@.shapes.len() == 0 {
                lemma_undo_of_nothing(old(self)@, steps as nat);
            }
        }
    }

    /// Takes the newest shape away. With no shape drawn, nothing changes.
    pub fn undo(&mut self)
        ensures
            final(self)@ == old(self)@.undo(),
            old(self)@.shapes.len() == 0 ==> final(self)@ == old(self)@,
            old(self)@.shapes.len() > 0 ==> final(self)@.shapes == old(self)@.shapes.drop_last(),
            final(self)@.pen_positive(),
            final(self)@.stroke_bounded(),
    {
        proof {
            use_type_invariant(&self.pixel_size);
            use_type_invariant(&self.path_pos);
        }
        let _ = self.shapes.pop();
        proof {
            let before = old(self).shapes@;
            if before.len() > 0 {
                assert(self.shapes@ == before.take(before.len() - 1));
                lemma_shape_views_take(before, before.len() - 1);
            } else {
                assert(shape_views(before).take(0) =~= shape_views(before));
            }
        }
    }
}

impl BaseWindow {
    /// Sets the pen to `pixel_size` if that is positive, and to the minimum
    /// if it is not.
    pub fn set_pixel_size(&mut self, pixel_size: i32)
        ensures
            final(self)@ == old(self)@.set_pixel_size(pixel_size),
            pixel_size > 0 ==> final(self)@.pixel_size == pixel_size,
            final(self)@.pen_positive(),
            final(self)@.stroke_bounded(),
    {
        proof {
            use_type_invariant(&self.path_pos);
        }
        self.pixel_size.set(pixel_size);
    }

    /// Pen size of the strokes to come. It is always positive.
    pub fn pixel_size(&self) -> (pixel_size: i32)
        ensures
            pixel_size == self@.pixel_size,
            pixel_size > 0,
    {
        self.pixel_size.pixel_size()
    }

    /// Canvas height, once the surface has been measured.
    pub fn height(&self) -> (height: Option<i32>)
        ensures
            height == self@.height,
    {
        self.height
    }

    /// Canvas width, once the surface has been measured.
    pub fn width(&self) -> (width: Option<i32>)
        ensures
            width == self@.width,
    {
        self.width
    }

    /// Upper left corner of the canvas.
    pub fn start_pos(&self) -> (start_pos: Point)
        ensures
            start_pos == self@.start_pos,
    {
        self.start_pos
    }

    /// Lower right corner of the canvas.
    pub fn end_pos(&self) -> (end_pos: Point)
        ensures
            end_pos == self@.end_pos,
    {
        self.end_pos
    }

    /// Size of the surface when it was measured.
    pub fn monitor_data(&self) -> (monitor_data: Offset)
        ensures
            monitor_data == self@.monitor_data,
    {
        self.monitor_data
    }

    /// The stroke buffer, oldest point first. It is always below the cap.
    pub fn path_pos(&self) -> (path_pos: &Vec<Point>)
        ensures
            path_pos@ == self@.path_pos,
            path_pos@.len() < STROKE_CAP,
    {
        self.path_pos.points()
    }

    /// The background, below all shapes.
    pub fn canvas(&self) -> (canvas: &Vec<Shape>)
        ensures
            shape_views(canvas@) == self@.canvas,
    {
        &self.canvas
    }

    /// Whether the background has been laid out.
    pub fn canvas_ready(&self) -> (canvas_ready: bool)
        ensures
            canvas_ready == self@.canvas_ready,
    {
        self.canvas_ready
    }

    /// Everything drawn so far, oldest first.
    pub fn shapes(&self) -> (shapes: &Vec<Shape>)
        ensures
            shape_views(shapes@) == self@.shapes,
    {
        &self.shapes
    }

    /// Where a pan started.
    pub fn start_pointer_pos(&self) -> (start_pointer_pos: Point)
        ensures
            start_pointer_pos == self@.start_pointer_pos,
    {
        self.start_pointer_pos
    }

    /// Where the pointer was last seen; zero when it left the window.
    pub fn pointer_pos(&self) -> (pointer_pos: Point)
        ensures
            pointer_pos == self@.pointer_pos,
    {
        self.pointer_pos
    }

    /// Scale of the canvas.
    pub fn zoom(&self) -> (zoom: i32)
        ensures
            zoom == self@.zoom,
    {
        self.zoom
    }

    /// Anchor of the zoom.
    pub fn zoom_pos(&self) -> (zoom_pos: Point)
        ensures
            zoom_pos == self@.zoom_pos,
    {
        self.zoom_pos
    }

    /// Centre of the canvas, once the surface has been measured.
    pub fn origin_pos(&self) -> (origin_pos: Option<Offset>)
        ensures
            origin_pos == self@.origin_pos,
    {
        self.origin_pos
    }

    /// The tool in hand.
    pub fn tool(&self) -> (tool: Tools)
        ensures
            tool == self@.tool,
    {
        self.tool
    }
}

} // verus!
