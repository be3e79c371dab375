//! The state of a small freehand paint surface: a canvas rectangle, a pen
//! with an adjustable pixel size, and a list of drawn shapes that doubles as
//! an undo stack. Positions and lengths count steps of a sixty-fourth of a UI
//! unit, the pen's pixel size counts whole units.
//!
//! [`window::BaseWindow`] holds the state. Each of its operations is
//! described by a function of [`model::WindowView`], the same state as a
//! mathematical value. [`input`] names what reaches the window from outside,
//! [`shape`] what it draws, [`pen`] keeps the pixel size positive, [`stroke`]
//! keeps the running stroke short, and [`geometry`] has the points and the
//! arithmetic.

pub mod geometry;
pub mod input;
pub mod model;
pub mod pen;
pub mod shape;
pub mod stroke;
pub mod window;
