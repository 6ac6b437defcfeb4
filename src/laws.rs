//! Properties of the game's rules, proved over the spec functions that the
//! contracts of `update`, `next_color` and `handle` use.
use vstd::prelude::*;
use crate::color::{Color, is_primary, next_color_of};
use crate::colored_rect::ColoredRect;
use crate::units::{BG_WRAP, PX, shift};
use crate::world::{
    any_hit, hits, lemma_count_off_bounded, lowered, lowered_all, room_for, scrolled, ticked_bars,
    ticked_game_over,
};

verus! {

/// A background offset after a sequence of steps, the first step first.
pub open spec fn scrolled_through(offset: int, dts: Seq<u32>) -> int
    decreases dts.len(),
{
    if dts.len() == 0 {
        offset
    } else {
        scrolled_through(scrolled(offset, dts[0]), dts.drop_first())
    }
}

/// Three steps along the color cycle bring red, green and blue back to
/// themselves.
pub proof fn lemma_color_cycle_closes(c: Color)
    requires
        is_primary(c),
    ensures
        next_color_of(next_color_of(next_color_of(c))) == c,
{
}

/// Every color but red, green and blue steps to clear, the transparent black.
pub proof fn lemma_color_fall_through(c: Color)
    requires
        !is_primary(c),
    ensures
        next_color_of(c) == Color::Clear,
{
}

/// A background offset that starts between -720 and 820 pixels stays there
/// through any sequence of steps; after at least one step it is at most 720.
pub proof fn lemma_background_bounded(offset: int, dts: Seq<u32>)
    requires
        -BG_WRAP <= offset <= BG_WRAP + 100 * PX,
    ensures
        -BG_WRAP <= scrolled_through(offset, dts) <= BG_WRAP + 100 * PX,
        dts.len() > 0 ==> scrolled_through(offset, dts) <= BG_WRAP,
    decreases dts.len(),
{
    if dts.len() > 0 {
        lemma_background_bounded(scrolled(offset, dts[0]), dts.drop_first());
    }
}

/// Every bar that survives a step of `dt` microseconds has moved down by
/// exactly `100 * dt` micropixels, and is otherwise unchanged.
pub proof fn lemma_bars_descend(bars: Seq<ColoredRect>, dt: u32)
    requires
        room_for(bars, seq![], dt),
    ensures
        forall|i: int|
            0 <= i < ticked_bars(bars, dt).len() ==> {
                let after = #[trigger] ticked_bars(bars, dt)[i];
                &&& after.rectangle.y == bars[i].rectangle.y + shift(dt)
                &&& after.rectangle.x == bars[i].rectangle.x
                &&& after.rectangle.w == bars[i].rectangle.w
                &&& after.rectangle.h == bars[i].rectangle.h
                &&& after.color == bars[i].color
            },
{
    lemma_count_off_bounded(bars);
    assert forall|i: int| 0 <= i < ticked_bars(bars, dt).len() implies
        #[trigger] ticked_bars(bars, dt)[i].rectangle.y == bars[i].rectangle.y + shift(dt) by {
        assert(ticked_bars(bars, dt)[i] == lowered_all(bars, dt)[i]);
        assert(bars[i].rectangle.y + shift(dt) <= i64::MAX);
    }
}

/// A step never adds bars: there are no more after it than before, and the
/// bar at each surviving position is the one that stood there, moved down.
/// So a bar once taken off never comes back.
pub proof fn lemma_cull_monotone(bars: Seq<ColoredRect>, dt: u32)
    ensures
        ticked_bars(bars, dt).len() <= bars.len(),
        forall|i: int|
            0 <= i < ticked_bars(bars, dt).len() ==> #[trigger] ticked_bars(bars, dt)[i] == lowered(
                bars[i],
                dt,
            ),
{
    lemma_count_off_bounded(bars);
}

/// A game that is over stays over, whatever a step finds.
pub proof fn lemma_game_over_sticky(player: ColoredRect, bars: Seq<ColoredRect>)
    ensures
        ticked_game_over(true, player, bars),
{
}

/// A bar of the player's own color never ends the game, however they
/// overlap; so a step over bars all of the player's color leaves the game as
/// it was.
pub proof fn lemma_matching_color_passes(game_over: bool, player: ColoredRect, bars: Seq<ColoredRect>)
    requires
        forall|i: int| 0 <= i < bars.len() ==> #[trigger] bars[i].color == player.color,
    ensures
        forall|i: int| 0 <= i < bars.len() ==> !hits(player, #[trigger] bars[i]),
        ticked_game_over(game_over, player, bars) == game_over,
{
    assert(!any_hit(player, bars));
}

/// The hit test is strict: a player whose top edge is level with a bar's top
/// edge is not hit by it.
pub proof fn lemma_level_edge_misses(player: ColoredRect, s: ColoredRect)
    requires
        player.rectangle.y == s.rectangle.y,
    ensures
        !hits(player, s),
{
}

} // verus!
