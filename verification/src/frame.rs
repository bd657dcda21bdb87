//! What one frame shows, as the ordered list of things drawn into it.

use crate::colour::Colour;
use crate::label::byte_len;
use vstd::prelude::*;

verus! {

/// Width of the display in pixels.
pub const DISPLAY_WIDTH: u32 = 128;

/// Height of the display in pixels.
pub const DISPLAY_HEIGHT: u32 = 128;

/// One drawing step. The origin is the top-left pixel; `x` grows to the
/// right and `y` grows downwards.
#[derive(Clone, Debug, PartialEq, Eq)]
pub enum DrawOp {
    /// Every pixel of the frame takes `colour`.
    Clear { colour: Colour },
    /// A filled rectangle with its top-left corner at (`x`, `y`).
    FillRect { x: i32, y: i32, width: u32, height: u32, colour: Colour },
    /// A line one pixel wide from (`x0`, `y0`) to (`x1`, `y1`).
    Line { x0: i32, y0: i32, x1: i32, y1: i32, colour: Colour },
    /// Left-aligned text whose bottom edge sits at `y`, starting at `x`.
    Text { x: i32, y: i32, text: String, colour: Colour },
}

/// Distance from the origin within which every drawing step keeps its
/// coordinates and sizes, so that the arithmetic of drawing stays inside 32
/// bits.
pub const REACH: i32 = 1024;

/// A drawing step as a mathematical value.
pub enum Shape {
    Clear { colour: Colour },
    FillRect { x: int, y: int, width: int, height: int, colour: Colour },
    Line { x0: int, y0: int, x1: int, y1: int, colour: Colour },
    Text { x: int, y: int, text: Seq<char>, colour: Colour },
}

impl View for DrawOp {
    type V = Shape;

    open spec fn view(&self) -> Shape {
        match *self {
            DrawOp::Clear { colour } => Shape::Clear { colour },
            DrawOp::FillRect { x, y, width, height, colour } => Shape::FillRect {
                x: x as int,
                y: y as int,
                width: width as int,
                height: height as int,
                colour,
            },
            DrawOp::Line { x0, y0, x1, y1, colour } => Shape::Line {
                x0: x0 as int,
                y0: y0 as int,
                x1: x1 as int,
                y1: y1 as int,
                colour,
            },
            DrawOp::Text { x, y, text, colour } => Shape::Text {
                x: x as int,
                y: y as int,
                text: text@,
                colour,
            },
        }
    }
}

impl Shape {
    /// The step keeps within `REACH`: its coordinates, its sizes, and for a
    /// text the number of its bytes.
    pub open spec fn in_reach(self) -> bool {
        match self {
            Shape::Clear { colour } => true,
            Shape::FillRect { x, y, width, height, colour } => {
                &&& -REACH <= x <= REACH
                &&& -REACH <= y <= REACH
                &&& 0 <= width <= REACH
                &&& 0 <= height <= REACH
            },
            Shape::Line { x0, y0, x1, y1, colour } => {
                &&& -REACH <= x0 <= REACH
                &&& -REACH <= y0 <= REACH
                &&& -REACH <= x1 <= REACH
                &&& -REACH <= y1 <= REACH
            },
            Shape::Text { x, y, text, colour } => {
                &&& -REACH <= x <= REACH
                &&& -REACH <= y <= REACH
                &&& byte_len(text) <= REACH
            },
        }
    }
}

/// Every step of `steps` keeps within `REACH`.
pub open spec fn all_in_reach(steps: Seq<Shape>) -> bool {
    forall|i: int| 0 <= i < steps.len() ==> (#[trigger] steps[i]).in_reach()
}

/// The steps of a list of drawing steps, in their order.
pub open spec fn shapes(ops: Seq<DrawOp>) -> Seq<Shape> {
    ops.map_values(|op: DrawOp| op@)
}

} // verus!
