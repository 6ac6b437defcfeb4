use vstd::prelude::*;
use crate::color::Color;
use crate::colored_rect::{ColoredRect, Rect};
use crate::units::{BG_WRAP, FIELD_BOTTOM, PX};
use crate::world::App;

verus! {

/// The rectangle with corner `(x, y)` and size `w` by `h`, all given in
/// whole pixels, painted in `c`.
pub open spec fn boxed(x: int, y: int, w: int, h: int, c: Color) -> ColoredRect {
    ColoredRect {
        color: c,
        rectangle: Rect { x: (x * PX) as i64, y: (y * PX) as i64, w: (w * PX) as u64, h: (h * PX) as u64 },
    }
}

/// The bars that a game starts with, in their order.
pub open spec fn initial_bars() -> Seq<ColoredRect> {
    seq![
        boxed(0, -200, 640, 50, Color::Grey),
        boxed(700, -200, 640, 50, Color::Grey),
        boxed(0, 0, 1280, 25, Color::Red),
        boxed(0, 100, 1280, 25, Color::Green),
        boxed(0, 200, 1280, 25, Color::Blue),
        boxed(0, 300, 1280, 25, Color::Red),
    ]
}

/// Side of the player's square.
pub const PLAYER_SIDE: u64 = 25_000_000;

/// Height of the player's top edge: 75 pixels above the bottom of the field.
pub const PLAYER_Y: i64 = FIELD_BOTTOM - 75 * PX;

impl App {
    /// A game as it starts: a green 25 by 25 player at (0, 645), the six
    /// starting bars, the background tiles at -720 and 0, not over.
    pub fn new() -> (r: App)
        ensures
            r.player == boxed(0, 645, 25, 25, Color::Green),
            r.squares@ == initial_bars(),
            r.bg_position@ == seq![(-720 * PX) as i64, 0i64],
            !r.game_over,
    {
        let wide: u64 = 640_000_000;
        let full: u64 = 1_280_000_000;
        let thick: u64 = 50_000_000;
        let thin: u64 = 25_000_000;
        let squares = vec![
            ColoredRect::new().width_height(wide, thick).color(Color::Grey).position(0, -200 * PX),
            ColoredRect::new().width_height(wide, thick).color(Color::Grey).position(700 * PX, -200 * PX),
            ColoredRect::new().width_height(full, thin).color(Color::Red).position(0, 0),
            ColoredRect::new().width_height(full, thin).color(Color::Green).position(0, 100 * PX),
            ColoredRect::new().width_height(full, thin).color(Color::Blue).position(0, 200 * PX),
            ColoredRect::new().width_height(full, thin).color(Color::Red).position(0, 300 * PX),
        ];
        let player = ColoredRect::new().position(0, PLAYER_Y).width_height(PLAYER_SIDE, PLAYER_SIDE).color(
            Color::Green,
        );
        let r = App { squares, player, game_over: false, bg_position: [-BG_WRAP, 0] };
        proof {
            assert(r.squares@ =~= initial_bars());
            assert(r.bg_position@ =~= seq![(-720 * PX) as i64, 0i64]);
        }
        r
    }
}

} // verus!
