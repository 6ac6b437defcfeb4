use vstd::prelude::*;
use crate::color::{Color, next_color_of};

verus! {

/// An axis-aligned rectangle in micropixels: top-left corner `(x, y)`, with
/// `y` growing downward, and size `w` by `h`.
#[derive(Clone, Copy, PartialEq, Eq, Structural, Debug)]
pub struct Rect {
    pub x: i64,
    pub y: i64,
    pub w: u64,
    pub h: u64,
}

/// A rectangle painted in one color: the player, or a bar.
#[derive(Clone, Copy, PartialEq, Eq, Structural, Debug)]
pub struct ColoredRect {
    pub color: Color,
    pub rectangle: Rect,
}

impl ColoredRect {
    /// An empty green rectangle at the origin.
    pub fn new() -> (r: Self)
        ensures
            r.color == Color::Green,
            r.rectangle == (Rect { x: 0, y: 0, w: 0, h: 0 }),
    {
        ColoredRect { color: Color::Green, rectangle: Rect { x: 0, y: 0, w: 0, h: 0 } }
    }

    /// The same rectangle with size `w` by `h`.
    pub fn width_height(self, w: u64, h: u64) -> (r: Self)
        ensures
            r == (ColoredRect { rectangle: Rect { w, h, ..self.rectangle }, ..self }),
    {
        let mut cr = self;
        cr.rectangle.w = w;
        cr.rectangle.h = h;
        cr
    }

    /// The same rectangle painted in `color`.
    pub fn color(self, color: Color) -> (r: Self)
        ensures
            r == (ColoredRect { color, ..self }),
    {
        let mut cr = self;
        cr.color = color;
        cr
    }

    /// The same rectangle moved so that its top-left corner is `(x, y)`.
    pub fn position(self, x: i64, y: i64) -> (r: Self)
        ensures
            r == (ColoredRect { rectangle: Rect { x, y, ..self.rectangle }, ..self }),
    {
        let mut cr = self;
        cr.rectangle.x = x;
        cr.rectangle.y = y;
        cr
    }

    /// Moves the color one step along the cycle red, green, blue; any other
    /// color becomes clear. The rectangle stays where it is.
    pub fn next_color(&mut self)
        ensures
            final(self).color == next_color_of(old(self).color),
            final(self).rectangle == old(self).rectangle,
    {
        self.color = self.color.next();
    }
}

} // verus!
