use vstd::prelude::*;
use crate::colored_rect::{ColoredRect, Rect};
use crate::units::{BG_WRAP, FIELD_BOTTOM, SPEED, shift};

verus! {

/// Where a background tile stands after a step of `dt` microseconds: it
/// moves down, and once past `BG_WRAP` it starts again from `-BG_WRAP`.
pub open spec fn scrolled(offset: int, dt: u32) -> int {
    if offset + shift(dt) > BG_WRAP {
        -BG_WRAP
    } else {
        offset + shift(dt)
    }
}

/// The bar `s` moved down by a step of `dt` microseconds.
pub open spec fn lowered(s: ColoredRect, dt: u32) -> ColoredRect {
    ColoredRect {
        rectangle: Rect { y: (s.rectangle.y + shift(dt)) as i64, ..s.rectangle },
        ..s
    }
}

/// The top edge of bar `s` lies below the playfield.
pub open spec fn off_field(s: ColoredRect) -> bool {
    s.rectangle.y > FIELD_BOTTOM
}

/// How many of `bars` lie below the playfield.
pub open spec fn count_off(bars: Seq<ColoredRect>) -> nat
    decreases bars.len(),
{
    if bars.len() == 0 {
        0
    } else {
        count_off(bars.drop_last()) + if off_field(bars.last()) { 1nat } else { 0nat }
    }
}

/// The player's top-left corner lies strictly inside bar `s`, and the two
/// colors differ.
pub open spec fn hits(player: ColoredRect, s: ColoredRect) -> bool {
    let p = player.rectangle;
    let r = s.rectangle;
    &&& p.y > r.y
    &&& p.y < r.y + r.h
    &&& p.x > r.x
    &&& p.x < r.x + r.w
    &&& s.color != player.color
}

/// Some bar of `bars` hits the player.
pub open spec fn any_hit(player: ColoredRect, bars: Seq<ColoredRect>) -> bool {
    exists|i: int| 0 <= i < bars.len() && hits(player, #[trigger] bars[i])
}

/// Every bar of `bars` moved down by a step of `dt` microseconds.
pub open spec fn lowered_all(bars: Seq<ColoredRect>, dt: u32) -> Seq<ColoredRect> {
    bars.map_values(|s: ColoredRect| lowered(s, dt))
}

/// The bars after a step of `dt` microseconds: all move down, then as many
/// bars as lay below the playfield before the step are taken off the end of
/// the sequence.
pub open spec fn ticked_bars(bars: Seq<ColoredRect>, dt: u32) -> Seq<ColoredRect> {
    lowered_all(bars, dt).take(bars.len() - count_off(bars))
}

/// The game is over after a step: it was already, or some bar hit the player.
pub open spec fn ticked_game_over(game_over: bool, player: ColoredRect, bars: Seq<ColoredRect>) -> bool {
    game_over || any_hit(player, bars)
}

/// A step of `dt` microseconds keeps every position in range.
pub open spec fn room_for(bars: Seq<ColoredRect>, bg: Seq<i64>, dt: u32) -> bool {
    &&& forall|i: int| 0 <= i < bars.len() ==> #[trigger] bars[i].rectangle.y + shift(dt) <= i64::MAX
    &&& forall|i: int| 0 <= i < bg.len() ==> #[trigger] bg[i] + shift(dt) <= i64::MAX
}

/// The state of a game: the player, the bars in their order, the vertical
/// offsets of the two background tiles, and whether the game is over.
pub struct App {
    pub squares: Vec<ColoredRect>,
    pub player: ColoredRect,
    pub game_over: bool,
    pub bg_position: [i64; 2],
}

/// No more bars lie below the playfield than there are bars.
pub proof fn lemma_count_off_bounded(bars: Seq<ColoredRect>)
    ensures
        count_off(bars) <= bars.len(),
    decreases bars.len(),
{
    if bars.len() > 0 {
        lemma_count_off_bounded(bars.drop_last());
    }
}

/// A background offset after a step of `dt` microseconds.
fn scroll(offset: i64, dt: u32) -> (r: i64)
    requires
        offset + shift(dt) <= i64::MAX,
    ensures
        r == scrolled(offset as int, dt),
{
    let moved = offset + SPEED * dt as i64;
    if moved > BG_WRAP {
        -BG_WRAP
    } else {
        moved
    }
}

/// Whether the player's corner lies strictly inside `s` with another color.
fn hit_test(player: &ColoredRect, s: &ColoredRect) -> (r: bool)
    ensures
        r == hits(*player, *s),
{
    let p = player.rectangle;
    let r = s.rectangle;
    (p.y > r.y) && ((p.y as i128) < (r.y as i128) + (r.h as i128)) && (p.x > r.x) && ((p.x as i128)
        < (r.x as i128) + (r.w as i128)) && s.color != player.color
}

impl App {
    /// The bars after one more step of `dt` microseconds leave no position
    /// out of range.
    pub open spec fn has_room(&self, dt: u32) -> bool {
        room_for(self.squares@, self.bg_position@, dt)
    }

    /// Whether a step of `dt` microseconds keeps every position in range.
    pub fn fits(&self, dt: u32) -> (r: bool)
        ensures
            r == self.has_room(dt),
    {
        let step = SPEED * dt as i64;
        if self.bg_position[0] > i64::MAX - step || self.bg_position[1] > i64::MAX - step {
            return false;
        }
        let mut i: usize = 0;
        while i < self.squares.len()
            invariant
                0 <= i <= self.squares.len(),
                step == shift(dt),
                forall|j: int| 0 <= j < i ==> #[trigger] self.squares@[j].rectangle.y + shift(dt) <= i64::MAX,
            decreases self.squares.len() - i,
        {
            if self.squares[i].rectangle.y > i64::MAX - step {
                return false;
            }
            i += 1;
        }
        true
    }

    /// Advances the game by `dt` microseconds: the background tiles scroll,
    /// each bar is tested against the player and moves down, and as many bars
    /// as lay below the playfield are taken off the end of the sequence.
    pub fn update(&mut self, dt: u32)
        requires
            old(self).has_room(dt),
        ensures
            final(self).bg_position[0] == scrolled(old(self).bg_position[0] as int, dt),
            final(self).bg_position[1] == scrolled(old(self).bg_position[1] as int, dt),
            final(self).squares@ == ticked_bars(old(self).squares@, dt),
            final(self).game_over == ticked_game_over(old(self).game_over, old(self).player, old(self).squares@),
            final(self).player == old(self).player,
    {
        proof {
            assert(self.bg_position@[0] == self.bg_position[0]);
            assert(self.bg_position@[1] == self.bg_position[1]);
        }
        self.bg_position = [scroll(self.bg_position[0], dt), scroll(self.bg_position[1], dt)];

        let ghost bg1 = self.bg_position;
        let ghost player0 = self.player;
        let ghost bars0 = self.squares@;
        let ghost go0 = self.game_over;
        let step = SPEED * dt as i64;
        let mut number_of_pops: usize = 0;
        let mut i: usize = 0;
        while i < self.squares.len()
            invariant
                self.squares@.len() == bars0.len(),
                self.bg_position == bg1,
                self.player == player0,
                0 <= i <= bars0.len(),
                step == shift(dt),
                room_for(bars0, seq![], dt),
                number_of_pops == count_off(bars0.take(i as int)),
                forall|j: int| 0 <= j < i ==> #[trigger] self.squares@[j] == lowered(bars0[j], dt),
                forall|j: int| i <= j < bars0.len() ==> #[trigger] self.squares@[j] == bars0[j],
                self.game_over == ticked_game_over(go0, self.player, bars0.take(i as int)),
            decreases bars0.len() - i,
        {
            let s = self.squares[i];
            proof {
                assert(bars0.take(i + 1).drop_last() == bars0.take(i as int));
                lemma_count_off_bounded(bars0.take(i as int));
            }
            if s.rectangle.y > FIELD_BOTTOM {
                number_of_pops += 1;
            }
            if hit_test(&self.player, &s) {
                self.game_over = true;
            }
            proof {
                let t = bars0.take(i + 1);
                if any_hit(self.player, bars0.take(i as int)) {
                    let k = choose|k: int| 0 <= k < i && hits(self.player, #[trigger] bars0.take(i as int)[k]);
                    assert(t[k] == bars0.take(i as int)[k]);
                }
                if hits(self.player, s) {
                    assert(t[i as int] == s);
                }
                if any_hit(self.player, t) {
                    let k = choose|k: int| 0 <= k < t.len() && hits(self.player, #[trigger] t[k]);
                    if k < i {
                        assert(bars0.take(i as int)[k] == t[k]);
                    }
                }
            }
            let mut moved = s;
            moved.rectangle.y = s.rectangle.y + step;
            self.squares[i] = moved;
            i += 1;
        }
        proof {
            assert(bars0.take(bars0.len() as int) == bars0);
            lemma_count_off_bounded(bars0);
        }
        let ghost kept = bars0.len() - count_off(bars0);
        while number_of_pops > 0
            invariant
                0 <= kept <= bars0.len(),
                self.squares@.len() == kept + number_of_pops,
                self.bg_position == bg1,
                self.player == player0,
                self.game_over == ticked_game_over(go0, player0, bars0),
                forall|j: int| 0 <= j < self.squares@.len() ==> #[trigger] self.squares@[j] == lowered(bars0[j], dt),
            decreases number_of_pops,
        {
            self.squares.pop();
            number_of_pops -= 1;
        }
        proof {
            assert(self.squares@ == ticked_bars(bars0, dt));
        }
    }
}

} // verus!
