use vstd::prelude::*;

verus! {

/// The colors that the game paints with. Each names one RGBA value:
/// red (1, 0, 0, 1), green (0, 1, 0, 1), blue (0, 0, 1, 1), black (0, 0, 0, 1),
/// grey (0.5, 0.5, 0.5, 1) and clear, the transparent (0, 0, 0, 0).
/// Distinct variants have distinct channels, so comparing variants is
/// comparing channels.
#[derive(Clone, Copy, PartialEq, Eq, Structural, Debug)]
pub enum Color {
    Red,
    Green,
    Blue,
    Black,
    Grey,
    Clear,
}

/// One of the three colors that the player cycles through.
pub open spec fn is_primary(c: Color) -> bool {
    c == Color::Red || c == Color::Green || c == Color::Blue
}

/// The color that follows `c` in the player's cycle red, green, blue; any
/// other color gives way to clear.
pub open spec fn next_color_of(c: Color) -> Color {
    match c {
        Color::Red => Color::Green,
        Color::Green => Color::Blue,
        Color::Blue => Color::Red,
        _ => Color::Clear,
    }
}

impl Color {
    /// The color after this one in the cycle.
    pub fn next(self) -> (r: Color)
        ensures
            r == next_color_of(self),
    {
        match self {
            Color::Red => Color::Green,
            Color::Green => Color::Blue,
            Color::Blue => Color::Red,
            _ => Color::Clear,
        }
    }
}

} // verus!
