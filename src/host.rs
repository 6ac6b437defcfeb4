use vstd::prelude::*;
use crate::color::{Color, next_color_of};
use crate::colored_rect::ColoredRect;
use crate::world::App;

verus! {

/// The kind of a released button: only a mouse button affects the game.
#[derive(Clone, Copy, PartialEq, Eq, Structural, Debug)]
pub enum ButtonKind {
    Keyboard,
    Mouse,
    Controller,
}

/// What the host hands the game, one at a time.
#[derive(Clone, Copy, PartialEq, Eq, Structural, Debug)]
pub enum GameEvent {
    /// A frame is to be drawn.
    Render,
    /// `dt` microseconds have passed.
    Update { dt: u32 },
    /// The pointer moved to `(x, y)`, in micropixels.
    PointerMove { x: i64, y: i64 },
    /// A button was released.
    Release { button: ButtonKind },
}

/// One drawing step of a frame.
#[derive(Clone, Copy, PartialEq, Eq, Structural, Debug)]
pub enum DrawOp {
    /// Fill the whole frame with `color`.
    Clear { color: Color },
    /// Draw background tile `tile` moved down by `offset` micropixels.
    Background { tile: usize, offset: i64 },
    /// Fill the rectangle `shape` with its color.
    Fill { shape: ColoredRect },
}

/// What the host is to do after an event.
pub enum Reaction {
    /// The game is over: leave the loop.
    Stop,
    /// Draw these steps, in order.
    Draw { ops: Vec<DrawOp> },
    /// Nothing to do but wait for the next event.
    Proceed,
}

/// The drawing steps of a frame of `app`: clear to black, the two
/// background tiles at their offsets, the player, then each bar in order.
pub open spec fn frame_of(app: App) -> Seq<DrawOp> {
    seq![
        DrawOp::Clear { color: Color::Black },
        DrawOp::Background { tile: 0, offset: app.bg_position[0] },
        DrawOp::Background { tile: 1, offset: app.bg_position[1] },
        DrawOp::Fill { shape: app.player },
    ] + app.squares@.map_values(|s: ColoredRect| DrawOp::Fill { shape: s })
}

/// `a` and `b` are the same game state.
pub open spec fn same_state(a: App, b: App) -> bool {
    &&& a.squares@ == b.squares@
    &&& a.player == b.player
    &&& a.game_over == b.game_over
    &&& a.bg_position == b.bg_position
}

/// The event can be handled without a position leaving its range.
pub open spec fn admissible(app: App, ev: GameEvent) -> bool {
    match ev {
        GameEvent::Update { dt } => app.has_room(dt),
        _ => true,
    }
}

impl App {
    /// The drawing steps of the current frame.
    pub fn render(&self) -> (r: Vec<DrawOp>)
        ensures
            r@ == frame_of(*self),
    {
        let mut ops: Vec<DrawOp> = Vec::new();
        ops.push(DrawOp::Clear { color: Color::Black });
        ops.push(DrawOp::Background { tile: 0, offset: self.bg_position[0] });
        ops.push(DrawOp::Background { tile: 1, offset: self.bg_position[1] });
        ops.push(DrawOp::Fill { shape: self.player });
        let ghost head = ops@;
        let mut i: usize = 0;
        while i < self.squares.len()
            invariant
                0 <= i <= self.squares@.len(),
                ops@ == head + self.squares@.take(i as int).map_values(|s: ColoredRect| DrawOp::Fill { shape: s }),
            decreases self.squares@.len() - i,
        {
            ops.push(DrawOp::Fill { shape: self.squares[i] });
            i += 1;
            proof {
                assert(self.squares@.take(i as int).map_values(|s: ColoredRect| DrawOp::Fill { shape: s })
                    =~= self.squares@.take(i - 1).map_values(|s: ColoredRect| DrawOp::Fill { shape: s }).push(
                    DrawOp::Fill { shape: self.squares@[i - 1] },
                ));
            }
        }
        proof {
            assert(self.squares@.take(i as int) =~= self.squares@);
            assert(head =~= seq![
                DrawOp::Clear { color: Color::Black },
                DrawOp::Background { tile: 0, offset: self.bg_position[0] },
                DrawOp::Background { tile: 1, offset: self.bg_position[1] },
                DrawOp::Fill { shape: self.player },
            ]);
        }
        ops
    }

    /// The pointer moved to `(x, y)`: the player follows it sideways only.
    pub fn on_move(&mut self, x: i64, y: i64)
        ensures
            final(self).player.rectangle.x == x,
            final(self).player.rectangle.y == old(self).player.rectangle.y,
            final(self).player.rectangle.w == old(self).player.rectangle.w,
            final(self).player.rectangle.h == old(self).player.rectangle.h,
            final(self).player.color == old(self).player.color,
            final(self).squares@ == old(self).squares@,
            final(self).game_over == old(self).game_over,
            final(self).bg_position == old(self).bg_position,
    {
        self.player.rectangle.x = x;
    }

    /// A button was released: a mouse button moves the player's color along
    /// its cycle; other buttons change nothing.
    pub fn on_release(&mut self, button: ButtonKind)
        ensures
            final(self).player.color == if button == ButtonKind::Mouse {
                next_color_of(old(self).player.color)
            } else {
                old(self).player.color
            },
            final(self).player.rectangle == old(self).player.rectangle,
            final(self).squares@ == old(self).squares@,
            final(self).game_over == old(self).game_over,
            final(self).bg_position == old(self).bg_position,
    {
        match button {
            ButtonKind::Mouse => self.player.next_color(),
            _ => {},
        }
    }

    /// Handles one event of the host's loop. A game that is over changes no
    /// more and asks the host to stop; otherwise a render request yields the
    /// frame's drawing steps, and the other events go to `update`,
    /// `on_move` and `on_release`.
    pub fn handle(&mut self, ev: GameEvent) -> (r: Reaction)
        requires
            admissible(*old(self), ev),
        ensures
            old(self).game_over ==> r is Stop && same_state(*final(self), *old(self)),
            !old(self).game_over ==> match ev {
                GameEvent::Render => r is Draw && r->ops@ == frame_of(*old(self))
                    && same_state(*final(self), *old(self)),
                GameEvent::Update { dt } => r is Proceed
                    && final(self).bg_position[0] == crate::world::scrolled(old(self).bg_position[0] as int, dt)
                    && final(self).bg_position[1] == crate::world::scrolled(old(self).bg_position[1] as int, dt)
                    && final(self).squares@ == crate::world::ticked_bars(old(self).squares@, dt)
                    && final(self).game_over == crate::world::ticked_game_over(false, old(self).player, old(self).squares@)
                    && final(self).player == old(self).player,
                GameEvent::PointerMove { x, y } => r is Proceed
                    && final(self).player == (ColoredRect {
                        rectangle: crate::colored_rect::Rect { x, ..old(self).player.rectangle },
                        ..old(self).player
                    })
                    && final(self).squares@ == old(self).squares@
                    && final(self).game_over == old(self).game_over
                    && final(self).bg_position == old(self).bg_position,
                GameEvent::Release { button } => r is Proceed
                    && final(self).player.color == (if button == ButtonKind::Mouse {
                        next_color_of(old(self).player.color)
                    } else {
                        old(self).player.color
                    })
                    && final(self).player.rectangle == old(self).player.rectangle
                    && final(self).squares@ == old(self).squares@
                    && final(self).game_over == old(self).game_over
                    && final(self).bg_position == old(self).bg_position,
            },
    {
        if self.game_over {
            return Reaction::Stop;
        }
        match ev {
            GameEvent::Render => Reaction::Draw { ops: self.render() },
            GameEvent::Update { dt } => {
                self.update(dt);
                Reaction::Proceed
            },
            GameEvent::PointerMove { x, y } => {
                self.on_move(x, y);
                Reaction::Proceed
            },
            GameEvent::Release { button } => {
                self.on_release(button);
                Reaction::Proceed
            },
        }
    }
}

} // verus!
