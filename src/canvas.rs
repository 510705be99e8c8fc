use vstd::prelude::*;

use embedded_graphics::mono_font::ascii::{FONT_10X20, FONT_6X9};
use embedded_graphics::mono_font::MonoTextStyleBuilder;
use embedded_graphics::pixelcolor::BinaryColor;
use embedded_graphics::prelude::Point;
use embedded_graphics::primitives::{Circle, Line, Primitive, PrimitiveStyle};
use embedded_graphics::text::{Baseline, Text};
use embedded_graphics::Drawable;
use epd_waveshare::epd2in13_v2::{HEIGHT, WIDTH};
use epd_waveshare::graphics::{Display, DisplayRotation, VarDisplay};

use crate::action::{caption_text, Action, Caption, FontSize, Ink, Rotation};
use crate::plan::{plan, PLAN_LEN};

verus! {

/// Bytes in the frame buffer of the 122 by 250 pixel panel: 16 bytes per row.
pub const FRAME_BYTES: usize = 4000;

/// Largest distance from the origin, on either axis, of a point that is drawn.
pub const COORD_LIMIT: i32 = 1000;

/// Largest radius of a circle, and largest stroke width of a circle, that are
/// drawn.
pub const SIZE_LIMIT: u32 = 100;

/// Largest stroke width of a line that is drawn. A thick line's width test
/// computes `(2 * stroke)^2` times the squared length in `i32`; with both ends
/// within `COORD_LIMIT` this keeps that product, and the square of the width
/// accumulator, below `i32::MAX`.
pub const LINE_STROKE_LIMIT: u32 = 4;

/// Largest number of characters of a text that is drawn.
pub const TEXT_LIMIT: usize = 64;

/// The frame after text is drawn into it: `text` in `font`, its top left corner
/// at (x, y), in `ink` on a background of the other colour.
pub uninterp spec fn text_drawn(
    frame: Seq<u8>,
    rotation: Rotation,
    text: Seq<char>,
    font: FontSize,
    ink: Ink,
    x: int,
    y: int,
) -> Seq<u8>;

/// The frame after a dark circle of the given diameter and stroke is drawn
/// around (cx, cy).
pub uninterp spec fn circle_drawn(
    frame: Seq<u8>,
    rotation: Rotation,
    cx: int,
    cy: int,
    diameter: int,
    stroke: int,
) -> Seq<u8>;

/// The frame after a dark line of the given stroke is drawn from (x0, y0) to
/// (x1, y1).
pub uninterp spec fn line_drawn(
    frame: Seq<u8>,
    rotation: Rotation,
    x0: int,
    y0: int,
    x1: int,
    y1: int,
    stroke: int,
) -> Seq<u8>;

pub open spec fn coord_ok(v: i32) -> bool {
    -COORD_LIMIT <= v <= COORD_LIMIT
}

/// Relies on embedded-graphics drawing a `Text` with `Baseline::Top` in a
/// monospaced font, with both colours set, through epd-waveshare's `VarDisplay`
/// over the panel's buffer. Drawing only sets bits of the given slice. The pen
/// moves by plain `i32` additions per character and per line, so with the
/// position and the length of the text bounded none of them overflows.
#[verifier::external_body]
fn draw_frame_text(frame: &mut Vec<u8>, rotation: Rotation, text: &str, font: FontSize, ink: Ink, x: i32, y: i32)
    requires
        old(frame)@.len() == FRAME_BYTES,
        text@.len() <= TEXT_LIMIT,
        coord_ok(x),
        coord_ok(y),
    ensures
        final(frame)@ == text_drawn(old(frame)@, rotation, text@, font, ink, x as int, y as int),
        final(frame)@.len() == FRAME_BYTES,
{
    let mut d = VarDisplay::new(WIDTH, HEIGHT, frame.as_mut_slice());
    d.set_rotation(match rotation {
        Rotation::Rotate0 => DisplayRotation::Rotate0,
        Rotation::Rotate90 => DisplayRotation::Rotate90,
        Rotation::Rotate180 => DisplayRotation::Rotate180,
        Rotation::Rotate270 => DisplayRotation::Rotate270,
    });
    let f = match font { FontSize::Small => &FONT_6X9, FontSize::Large => &FONT_10X20 };
    let (fg, bg) = match ink { Ink::Dark => (BinaryColor::On, BinaryColor::Off), Ink::Light => (BinaryColor::Off, BinaryColor::On) };
    let style = MonoTextStyleBuilder::new().font(f).text_color(fg).background_color(bg).build();
    let _ = Text::with_baseline(text, Point::new(x, y), style, Baseline::Top).draw(&mut d);
}

/// Relies on embedded-graphics stroking a `Circle::with_center` in black through
/// epd-waveshare's `VarDisplay` over the panel's buffer. Drawing only sets bits
/// of the given slice; with centre and size bounded nothing overflows, and the
/// work is bounded by the size.
#[verifier::external_body]
fn draw_frame_circle(frame: &mut Vec<u8>, rotation: Rotation, cx: i32, cy: i32, diameter: u32, stroke: u32)
    requires
        old(frame)@.len() == FRAME_BYTES,
        coord_ok(cx),
        coord_ok(cy),
        diameter <= 2 * SIZE_LIMIT,
        stroke <= SIZE_LIMIT,
    ensures
        final(frame)@ == circle_drawn(old(frame)@, rotation, cx as int, cy as int, diameter as int, stroke as int),
        final(frame)@.len() == FRAME_BYTES,
{
    let mut d = VarDisplay::new(WIDTH, HEIGHT, frame.as_mut_slice());
    d.set_rotation(match rotation {
        Rotation::Rotate0 => DisplayRotation::Rotate0,
        Rotation::Rotate90 => DisplayRotation::Rotate90,
        Rotation::Rotate180 => DisplayRotation::Rotate180,
        Rotation::Rotate270 => DisplayRotation::Rotate270,
    });
    let style = PrimitiveStyle::with_stroke(BinaryColor::On, stroke);
    let _ = Circle::with_center(Point::new(cx, cy), diameter).into_styled(style).draw(&mut d);
}

/// Relies on embedded-graphics stroking a `Line` in black through epd-waveshare's
/// `VarDisplay` over the panel's buffer. Drawing only sets bits of the given
/// slice. With both ends within `COORD_LIMIT` and the stroke at most
/// `LINE_STROKE_LIMIT`, the `i32` width test of a thick line does not overflow.
#[verifier::external_body]
fn draw_frame_line(frame: &mut Vec<u8>, rotation: Rotation, x0: i32, y0: i32, x1: i32, y1: i32, stroke: u32)
    requires
        old(frame)@.len() == FRAME_BYTES,
        coord_ok(x0),
        coord_ok(y0),
        coord_ok(x1),
        coord_ok(y1),
        stroke <= LINE_STROKE_LIMIT,
    ensures
        final(frame)@ == line_drawn(old(frame)@, rotation, x0 as int, y0 as int, x1 as int, y1 as int, stroke as int),
        final(frame)@.len() == FRAME_BYTES,
{
    let mut d = VarDisplay::new(WIDTH, HEIGHT, frame.as_mut_slice());
    d.set_rotation(match rotation {
        Rotation::Rotate0 => DisplayRotation::Rotate0,
        Rotation::Rotate90 => DisplayRotation::Rotate90,
        Rotation::Rotate180 => DisplayRotation::Rotate180,
        Rotation::Rotate270 => DisplayRotation::Rotate270,
    });
    let style = PrimitiveStyle::with_stroke(BinaryColor::On, stroke);
    let _ = Line::new(Point::new(x0, y0), Point::new(x1, y1)).into_styled(style).draw(&mut d);
}

/// An all-white frame: every bit set.
pub open spec fn white_frame() -> Seq<u8> {
    Seq::new(FRAME_BYTES as nat, |i: int| 0xffu8)
}

/// True of the operations that only change the local frame buffer.
pub open spec fn draws_locally(a: Action) -> bool {
    match a {
        Action::SetRotation(_) | Action::DrawText { .. } | Action::DrawInvertedText { .. }
        | Action::DrawCircle { .. } | Action::DrawLine { .. } | Action::ClearBuffer => true,
        _ => false,
    }
}

/// True of the operations whose coordinates and sizes the canvas can draw.
pub open spec fn fits_canvas(a: Action) -> bool {
    match a {
        Action::DrawText { caption, x, y } => coord_ok(x) && coord_ok(y),
        Action::DrawInvertedText { caption, font, x, y } => coord_ok(x) && coord_ok(y),
        Action::DrawCircle { cx, cy, radius, stroke } => coord_ok(cx) && coord_ok(cy)
            && radius <= SIZE_LIMIT && stroke <= SIZE_LIMIT,
        Action::DrawLine { x0, y0, x1, y1, stroke } => coord_ok(x0) && coord_ok(y0) && coord_ok(
            x1,
        ) && coord_ok(y1) && stroke <= LINE_STROKE_LIMIT,
        _ => true,
    }
}

/// The rotation in force after `a`, when `r` was in force before.
pub open spec fn rotation_after(r: Rotation, a: Action) -> Rotation {
    match a {
        Action::SetRotation(n) => n,
        _ => r,
    }
}

/// The frame after `a`, when it was `f` at rotation `r` before.
pub open spec fn frame_after(f: Seq<u8>, r: Rotation, a: Action) -> Seq<u8> {
    match a {
        Action::ClearBuffer => white_frame(),
        Action::DrawText { caption, x, y } => text_drawn(
            f,
            r,
            caption_text(caption),
            FontSize::Small,
            Ink::Dark,
            x as int,
            y as int,
        ),
        Action::DrawInvertedText { caption, font, x, y } => text_drawn(
            f,
            r,
            caption_text(caption),
            font,
            Ink::Light,
            x as int,
            y as int,
        ),
        Action::DrawCircle { cx, cy, radius, stroke } => circle_drawn(
            f,
            r,
            cx as int,
            cy as int,
            2 * radius,
            stroke as int,
        ),
        Action::DrawLine { x0, y0, x1, y1, stroke } => line_drawn(
            f,
            r,
            x0 as int,
            y0 as int,
            x1 as int,
            y1 as int,
            stroke as int,
        ),
        _ => f,
    }
}

/// Whether the canvas can draw `a`.
pub fn fits(a: Action) -> (r: bool)
    ensures
        r == fits_canvas(a),
{
    match a {
        Action::DrawText { caption, x, y } => -COORD_LIMIT <= x && x <= COORD_LIMIT && -COORD_LIMIT
            <= y && y <= COORD_LIMIT,
        Action::DrawInvertedText { caption, font, x, y } => -COORD_LIMIT <= x && x <= COORD_LIMIT
            && -COORD_LIMIT <= y && y <= COORD_LIMIT,
        Action::DrawCircle { cx, cy, radius, stroke } => -COORD_LIMIT <= cx && cx <= COORD_LIMIT
            && -COORD_LIMIT <= cy && cy <= COORD_LIMIT && radius <= SIZE_LIMIT && stroke
            <= SIZE_LIMIT,
        Action::DrawLine { x0, y0, x1, y1, stroke } => -COORD_LIMIT <= x0 && x0 <= COORD_LIMIT
            && -COORD_LIMIT <= y0 && y0 <= COORD_LIMIT && -COORD_LIMIT <= x1 && x1 <= COORD_LIMIT
            && -COORD_LIMIT <= y1 && y1 <= COORD_LIMIT && stroke <= LINE_STROKE_LIMIT,
        _ => true,
    }
}

proof fn lemma_caption_fits(c: Caption)
    ensures
        caption_text(c).len() <= TEXT_LIMIT,
{
    reveal_strlit("Rotate 0!");
    reveal_strlit("Rotate 90!");
    reveal_strlit("Rotate 180!");
    reveal_strlit("Rotate 270!");
    reveal_strlit("  Hello World! ");
    reveal_strlit("It's working-WoB!");
}

/// Every operation of the plan is one that the canvas can draw.
pub proof fn plan_fits_canvas()
    ensures
        forall|k: int| 0 <= k < PLAN_LEN ==> fits_canvas(#[trigger] plan()[k]),
{
    assert forall|k: int| 0 <= k < PLAN_LEN implies fits_canvas(#[trigger] plan()[k]) by {
        if 25 <= k < 55 {
            assert(0 <= (k - 25) / 3 < 10);
        }
    }
}

/// The local frame buffer that drawing operations change, before it is pushed to
/// the panel.
pub struct Canvas {
    frame: Vec<u8>,
    rotation: Rotation,
}

impl Canvas {
    /// The bytes of the frame buffer, one bit per pixel, a set bit being white.
    pub closed spec fn frame(&self) -> Seq<u8> {
        self.frame@
    }

    /// The rotation that drawing uses now.
    pub closed spec fn current_rotation(&self) -> Rotation {
        self.rotation
    }

    pub open spec fn wf(&self) -> bool {
        self.frame().len() == FRAME_BYTES
    }

    /// A white canvas at rotation 0.
    pub fn new() -> (r: Canvas)
        ensures
            r.frame() == white_frame(),
            r.current_rotation() == Rotation::Rotate0,
    {
        let mut frame: Vec<u8> = Vec::new();
        let mut i: usize = 0;
        while i < FRAME_BYTES
            invariant
                i <= FRAME_BYTES,
                frame@.len() == i,
                forall|j: int| 0 <= j < i ==> frame@[j] == 0xffu8,
            decreases FRAME_BYTES - i,
        {
            frame.push(0xff);
            i = i + 1;
        }
        assert(frame@ =~= white_frame());
        Canvas { frame, rotation: Rotation::Rotate0 }
    }

    pub fn rotation(&self) -> (r: Rotation)
        ensures
            r == self.current_rotation(),
    {
        self.rotation
    }

    fn whiten(&mut self)
        requires
            old(self).wf(),
        ensures
            final(self).frame() == white_frame(),
            final(self).current_rotation() == old(self).current_rotation(),
    {
        let mut i: usize = 0;
        while i < FRAME_BYTES
            invariant
                i <= FRAME_BYTES,
                self.frame@.len() == FRAME_BYTES,
                self.rotation == old(self).rotation,
                forall|j: int| 0 <= j < i ==> self.frame@[j] == 0xffu8,
            decreases FRAME_BYTES - i,
        {
            self.frame.set(i, 0xff);
            i = i + 1;
        }
        assert(self.frame@ =~= white_frame());
    }

    /// Carries out `a` if it only changes the frame buffer, and says whether it
    /// did; any other operation is left to the caller and changes nothing here.
    pub fn apply(&mut self, a: Action) -> (drawn: bool)
        requires
            old(self).wf(),
            fits_canvas(a),
        ensures
            drawn == draws_locally(a),
            final(self).wf(),
            final(self).current_rotation() == rotation_after(old(self).current_rotation(), a),
            final(self).frame() == frame_after(old(self).frame(), old(self).current_rotation(), a),
    {
        match a {
            Action::SetRotation(r) => {
                self.rotation = r;
                true
            },
            Action::DrawText { caption, x, y } => {
                proof {
                    lemma_caption_fits(caption);
                }
                draw_frame_text(&mut self.frame, self.rotation, caption.text(), FontSize::Small, Ink::Dark, x, y);
                true
            },
            Action::DrawInvertedText { caption, font, x, y } => {
                proof {
                    lemma_caption_fits(caption);
                }
                draw_frame_text(&mut self.frame, self.rotation, caption.text(), font, Ink::Light, x, y);
                true
            },
            Action::DrawCircle { cx, cy, radius, stroke } => {
                draw_frame_circle(&mut self.frame, self.rotation, cx, cy, 2 * radius, stroke);
                true
            },
            Action::DrawLine { x0, y0, x1, y1, stroke } => {
                draw_frame_line(&mut self.frame, self.rotation, x0, y0, x1, y1, stroke);
                true
            },
            Action::ClearBuffer => {
                self.whiten();
                true
            },
            _ => false,
        }
    }

    /// The frame buffer, as it is pushed to the panel.
    pub fn buffer(&self) -> (r: &[u8])
        ensures
            r@ == self.frame(),
    {
        self.frame.as_slice()
    }
}

} // verus!
