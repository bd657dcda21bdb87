//! The off-screen pixel buffer that a frame is drawn into before it goes to
//! the display in one piece.

use crate::colour::Colour;
use crate::colour::BLACK;
use crate::frame::all_in_reach;
use crate::frame::shapes;
use crate::frame::DrawOp;
use crate::frame::Shape;
use crate::frame::DISPLAY_WIDTH;
use crate::label::byte_len;
use embedded_graphics::draw_target::DrawTarget;
use embedded_graphics::geometry::Point;
use embedded_graphics::geometry::Size;
use embedded_graphics::mono_font::ascii::FONT_6X10;
use embedded_graphics::mono_font::MonoTextStyle;
use embedded_graphics::pixelcolor::raw::RawU16;
use embedded_graphics::pixelcolor::Rgb565;
use embedded_graphics::prelude::IntoStorage;
use embedded_graphics::primitives::Line;
use embedded_graphics::primitives::Primitive;
use embedded_graphics::primitives::PrimitiveStyle;
use embedded_graphics::primitives::PrimitiveStyleBuilder;
use embedded_graphics::primitives::Rectangle;
use embedded_graphics::text::Alignment;
use embedded_graphics::text::Baseline;
use embedded_graphics::text::Text;
use embedded_graphics::text::TextStyleBuilder;
use embedded_graphics::Drawable;
use embedded_graphics_framebuf::FrameBuf;
use vstd::prelude::*;

verus! {

/// Pixels of the buffer: one for each pixel of the display.
pub const PIXELS: usize = 16384;

/// The off-screen buffer: one colour for each pixel of the display. It is
/// an `embedded_graphics_framebuf::FrameBuf` over an array of `Rgb565`; the
/// verifier cannot take the bounds of that type, so it knows the buffer by
/// `canvas_pixels` alone.
#[verifier::external_body]
pub struct Canvas {
    buffer: FrameBuf<Rgb565, [Rgb565; 16384]>,
}

/// The colours of the pixels, row by row from the top, each row from the
/// left.
pub uninterp spec fn canvas_pixels(canvas: Canvas) -> Seq<Colour>;

/// The pixels after a line one pixel wide was stroked from (`x0`, `y0`) to
/// (`x1`, `y1`).
pub uninterp spec fn line_drawn(
    pixels: Seq<Colour>,
    x0: int,
    y0: int,
    x1: int,
    y1: int,
    colour: Colour,
) -> Seq<Colour>;

/// The pixels after `text` was written in the 6x10 font, left-aligned at
/// `x`, with the bottom of its line at `y`.
pub uninterp spec fn text_drawn(
    pixels: Seq<Colour>,
    x: int,
    y: int,
    text: Seq<char>,
    colour: Colour,
) -> Seq<Colour>;

/// The pixels of a canvas on which every one has the colour `colour`.
pub open spec fn cleared(colour: Colour) -> Seq<Colour> {
    Seq::new(PIXELS as nat, |i: int| colour)
}

/// The pixel with index `i` lies in the rectangle whose top-left corner is
/// (`x`, `y`).
pub open spec fn in_rect(i: int, x: int, y: int, width: int, height: int) -> bool {
    x <= i % (DISPLAY_WIDTH as int) < x + width && y <= i / (DISPLAY_WIDTH as int) < y + height
}

/// The pixels after the rectangle was filled: what of it lies on the buffer
/// takes `colour`, everything else stays.
pub open spec fn filled(
    pixels: Seq<Colour>,
    x: int,
    y: int,
    width: int,
    height: int,
    colour: Colour,
) -> Seq<Colour> {
    Seq::new(
        pixels.len(),
        |i: int|
            if in_rect(i, x, y, width, height) {
                colour
            } else {
                pixels[i]
            },
    )
}

/// `FrameBuf::new` over an array of black pixels, 128 by 128.
#[verifier::external_body]
fn blank_canvas() -> (canvas: Canvas)
    ensures
        canvas_pixels(canvas) == cleared(0),
{
    Canvas { buffer: FrameBuf::new([Rgb565::from(RawU16::new(0)); 16384], 128, 128) }
}

/// `DrawTarget::clear` of `FrameBuf`: every pixel takes `colour`.
#[verifier::external_body]
fn canvas_clear(canvas: &mut Canvas, colour: Colour)
    ensures
        canvas_pixels(*final(canvas)) == cleared(colour),
{
    let _ = canvas.buffer.clear(Rgb565::from(RawU16::new(colour)));
}

/// `Drawable::draw` of a `Rectangle` styled with a fill colour and no
/// stroke: the pixels of the rectangle that lie on the buffer take `colour`.
#[verifier::external_body]
fn canvas_fill_rect(
    canvas: &mut Canvas,
    x: i32,
    y: i32,
    width: u32,
    height: u32,
    colour: Colour,
)
    requires
        -1024 <= x <= 1024,
        -1024 <= y <= 1024,
        width <= 1024,
        height <= 1024,
    ensures
        canvas_pixels(*final(canvas)) == filled(
            canvas_pixels(*old(canvas)),
            x as int,
            y as int,
            width as int,
            height as int,
            colour,
        ),
{
    let style = PrimitiveStyleBuilder::new().fill_color(Rgb565::from(RawU16::new(colour))).build();
    let _ = Rectangle::new(Point::new(x, y), Size::new(width, height)).into_styled(style).draw(
        &mut canvas.buffer,
    );
}

/// `Drawable::draw` of a `Line` styled with a stroke one pixel wide.
#[verifier::external_body]
fn canvas_draw_line(
    canvas: &mut Canvas,
    x0: i32,
    y0: i32,
    x1: i32,
    y1: i32,
    colour: Colour,
)
    requires
        -1024 <= x0 <= 1024,
        -1024 <= y0 <= 1024,
        -1024 <= x1 <= 1024,
        -1024 <= y1 <= 1024,
    ensures
        canvas_pixels(*final(canvas)) == line_drawn(
            canvas_pixels(*old(canvas)),
            x0 as int,
            y0 as int,
            x1 as int,
            y1 as int,
            colour,
        ),
{
    let style = PrimitiveStyle::with_stroke(Rgb565::from(RawU16::new(colour)), 1);
    let _ = Line::new(Point::new(x0, y0), Point::new(x1, y1)).into_styled(style).draw(&mut canvas.buffer);
}

/// `Drawable::draw` of a `Text` in the font `FONT_6X10`, left-aligned, with
/// the baseline at the bottom.
#[verifier::external_body]
fn canvas_draw_text(
    canvas: &mut Canvas,
    x: i32,
    y: i32,
    text: &str,
    colour: Colour,
)
    requires
        -1024 <= x <= 1024,
        -1024 <= y <= 1024,
        byte_len(text@) <= 1024,
    ensures
        canvas_pixels(*final(canvas)) == text_drawn(
            canvas_pixels(*old(canvas)),
            x as int,
            y as int,
            text@,
            colour,
        ),
{
    let glyphs = MonoTextStyle::new(&FONT_6X10, Rgb565::from(RawU16::new(colour)));
    let layout = TextStyleBuilder::new().alignment(Alignment::Left).baseline(
        Baseline::Bottom,
    ).build();
    let _ = Text::with_text_style(text, Point::new(x, y), glyphs, layout).draw(&mut canvas.buffer);
}

/// The field `data` of `FrameBuf`, each colour as the display stores it.
#[verifier::external_body]
fn canvas_data(canvas: &Canvas) -> (pixels: Vec<Colour>)
    ensures
        pixels@ == canvas_pixels(*canvas),
{
    canvas.buffer.data.iter().map(|pixel| pixel.into_storage()).collect()
}

/// The pixels after one step was drawn.
pub open spec fn drawn(pixels: Seq<Colour>, step: Shape) -> Seq<Colour> {
    match step {
        Shape::Clear { colour } => cleared(colour),
        Shape::FillRect { x, y, width, height, colour } => filled(
            pixels,
            x,
            y,
            width,
            height,
            colour,
        ),
        Shape::Line { x0, y0, x1, y1, colour } => line_drawn(pixels, x0, y0, x1, y1, colour),
        Shape::Text { x, y, text, colour } => text_drawn(pixels, x, y, text, colour),
    }
}

/// The pixels of a black canvas.
pub open spec fn blank() -> Seq<Colour> {
    cleared(BLACK)
}

/// The pixels after `steps` were drawn one after another.
pub open spec fn painted(pixels: Seq<Colour>, steps: Seq<Shape>) -> Seq<Colour>
    decreases steps.len(),
{
    if steps.len() == 0 {
        pixels
    } else {
        drawn(painted(pixels, steps.drop_last()), steps.last())
    }
}

/// A frame that begins by clearing shows nothing of what the buffer held
/// before: whatever two buffers held, after the same such frame they hold
/// the same.
pub proof fn lemma_frame_overwrites(one: Seq<Colour>, other: Seq<Colour>, steps: Seq<Shape>)
    requires
        steps.len() > 0,
        steps[0] is Clear,
    ensures
        painted(one, steps) == painted(other, steps),
    decreases steps.len(),
{
    if steps.len() == 1 {
        assert(steps.drop_last().len() == 0);
        assert(painted(one, steps.drop_last()) == one);
        assert(painted(other, steps.drop_last()) == other);
        assert(steps.last() == steps[0]);
    } else {
        assert(steps.drop_last()[0] == steps[0]);
        lemma_frame_overwrites(one, other, steps.drop_last());
    }
}

impl View for Canvas {
    type V = Seq<Colour>;

    open spec fn view(&self) -> Seq<Colour> {
        canvas_pixels(*self)
    }
}

impl Canvas {
    /// A black canvas.
    pub fn new() -> (canvas: Canvas)
        ensures
            canvas@ == blank(),
    {
        blank_canvas()
    }

    /// Draws one step.
    pub fn draw(&mut self, op: &DrawOp)
        requires
            op@.in_reach(),
        ensures
            final(self)@ == drawn(old(self)@, op@),
    {
        match op {
            DrawOp::Clear { colour } => {
                canvas_clear(self, *colour);
            },
            DrawOp::FillRect { x, y, width, height, colour } => {
                canvas_fill_rect(self, *x, *y, *width, *height, *colour);
            },
            DrawOp::Line { x0, y0, x1, y1, colour } => {
                canvas_draw_line(self, *x0, *y0, *x1, *y1, *colour);
            },
            DrawOp::Text { x, y, text, colour } => {
                canvas_draw_text(self, *x, *y, text.as_str(), *colour);
            },
        }
    }

    /// Draws `ops` one after another.
    pub fn paint(&mut self, ops: &Vec<DrawOp>)
        requires
            all_in_reach(shapes(ops@)),
        ensures
            final(self)@ == painted(old(self)@, shapes(ops@)),
    {
        let ghost steps = shapes(ops@);
        let mut index: usize = 0;
        while index < ops.len()
            invariant
                index <= ops.len(),
                steps == shapes(ops@),
                all_in_reach(steps),
                self@ == painted(old(self)@, steps.subrange(0, index as int)),
            decreases ops.len() - index,
        {
            assert(steps[index as int] == ops@[index as int]@);
            assert(steps.subrange(0, index + 1).drop_last() =~= steps.subrange(0, index as int));
            self.draw(&ops[index]);
            index += 1;
        }
        assert(steps.subrange(0, index as int) =~= steps);
    }

    /// The colours of the pixels, row by row from the top, each row from
    /// the left.
    pub fn pixels(&self) -> (pixels: Vec<Colour>)
        ensures
            pixels@ == self@,
    {
        canvas_data(self)
    }
}

} // verus!
