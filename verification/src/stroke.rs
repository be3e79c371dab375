//! The stroke buffer: the latest pen positions of the stroke being drawn.

use vstd::prelude::*;
use crate::geometry::Point;

verus! {

/// The most points a single emitted line runs through. The stroke buffer
/// always holds fewer.
pub const STROKE_CAP: usize = 2;

/// The buffer `path` once `p` has been recorded in it: `p` is appended, and
/// where that fills the cap only `p` is kept, as the start of the next line.
pub open spec fn recorded(path: Seq<Point>, p: Point) -> Seq<Point> {
    if path.len() + 1 == STROKE_CAP {
        seq![p]
    } else {
        path.push(p)
    }
}

/// Recording a point in a buffer below the cap leaves it below the cap.
pub proof fn lemma_recorded_below_cap(path: Seq<Point>, p: Point)
    requires
        path.len() < STROKE_CAP,
    ensures
        recorded(path, p).len() < STROKE_CAP,
        recorded(path, p).len() >= 1,
        recorded(path, p).last() == p,
{
}

/// A copy of `points`.
pub fn copy_points(points: &Vec<Point>) -> (copy: Vec<Point>)
    ensures
        copy@ == points@,
{
    let mut copy: Vec<Point> = Vec::new();
    let mut i: usize = 0;
    while i < points.len()
        invariant
            i <= points.len(),
            copy@ == points@.take(i as int),
        decreases points.len() - i,
    {
        copy.push(points[i]);
        i += 1;
        assert(points@.take(i as int) == points@.take(i - 1).push(points@[i - 1]));
    }
    assert(points@.take(i as int) == points@);
    copy
}

/// The latest pen positions of a stroke, always fewer than [`STROKE_CAP`].
pub struct StrokeBuffer {
    points: Vec<Point>,
}

impl View for StrokeBuffer {
    type V = Seq<Point>;

    closed spec fn view(&self) -> Seq<Point> {
        self.points@
    }
}

impl StrokeBuffer {
    /// What holds of every buffer: it is below the cap.
    #[verifier::type_invariant]
    pub open spec fn below_cap(&self) -> bool {
        self@.len() < STROKE_CAP
    }

    /// An empty buffer.
    pub fn new() -> (buffer: StrokeBuffer)
        ensures
            buffer@ == Seq::<Point>::empty(),
    {
        StrokeBuffer { points: Vec::new() }
    }

    /// The buffered points, oldest first.
    pub fn points(&self) -> (points: &Vec<Point>)
        ensures
            points@ == self@,
            points@.len() < STROKE_CAP,
    {
        proof {
            use_type_invariant(self);
        }
        &self.points
    }

    /// Forgets the stroke.
    pub fn clear(&mut self)
        ensures
            final(self)@ == Seq::<Point>::empty(),
    {
        self.points = Vec::new();
    }

    /// Records the pen at `p` and returns the line that leads there: the
    /// buffered points, then `p`.
    pub fn record(&mut self, p: Point) -> (line: Vec<Point>)
        ensures
            line@ == old(self)@.push(p),
            line@.len() <= STROKE_CAP,
            final(self)@ == recorded(old(self)@, p),
            final(self)@ == seq![p],
    {
        proof {
            use_type_invariant(&*self);
        }
        let mut line = copy_points(&self.points);
        line.push(p);
        if line.len() == STROKE_CAP {
            let mut rest: Vec<Point> = Vec::new();
            rest.push(p);
            self.points = rest;
        } else {
            self.points = copy_points(&line);
        }
        line
    }
}

} // verus!
