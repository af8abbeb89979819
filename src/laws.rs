//! Properties of the logger that hold for every state and every input.

use vstd::prelude::*;
use crate::dispatch::{
    direction_of, snapshot_of, spec_apply_tiledata, spec_csi, step_matches, Event, EventView,
};
use crate::error::CoreError;
use crate::params::group_value;
use crate::screen::{cell_index, in_grid, spec_print, LoggerView, GRID_CELLS, MAP_WINDOW};
use crate::tiledata::TileData;

verus! {

/// A movement sequence with count `n` whose result stays in the cursor's
/// range moves the cursor exactly `n` cells in its direction, emits nothing,
/// and changes nothing else.
pub proof fn lemma_relative_move(s: LoggerView, p: Seq<Seq<u16>>, c: char, n: u16)
    requires
        direction_of(c) is Some,
        group_value(p, 0) == Some(n),
        c == 'A' ==> s.cursor_y >= n,
        c == 'B' ==> s.cursor_y + n <= u16::MAX,
        c == 'C' ==> s.cursor_x + n <= u16::MAX,
        c == 'D' ==> s.cursor_x >= n,
    ensures
        spec_csi(s, p, false, c) is Ok,
        ({
            let (t, events) = spec_csi(s, p, false, c)->Ok_0;
            &&& events.len() == 0
            &&& c == 'A' ==> t.cursor_y == s.cursor_y - n && t.cursor_x == s.cursor_x
            &&& c == 'B' ==> t.cursor_y == s.cursor_y + n && t.cursor_x == s.cursor_x
            &&& c == 'C' ==> t.cursor_x == s.cursor_x + n && t.cursor_y == s.cursor_y
            &&& c == 'D' ==> t.cursor_x == s.cursor_x - n && t.cursor_y == s.cursor_y
            &&& t.selected_window == s.selected_window
            &&& t.message == s.message
            &&& t.glyph == s.glyph
            &&& t.grid == s.grid
        }),
{
}

/// Positioning sets the cursor to the coordinates given, each omitted one
/// being zero, emits nothing, and changes nothing else.
pub proof fn lemma_absolute_position(s: LoggerView, p: Seq<Seq<u16>>)
    ensures
        spec_csi(s, p, false, 'H') is Ok,
        ({
            let (t, events) = spec_csi(s, p, false, 'H')->Ok_0;
            &&& events.len() == 0
            &&& p.len() >= 2 && p[0].len() > 0 && p[1].len() > 0 ==> t.cursor_y == p[0][0]
                && t.cursor_x == p[1][0]
            &&& p.len() == 0 ==> t.cursor_y == 0 && t.cursor_x == 0
            &&& p.len() == 1 ==> t.cursor_x == 0
            &&& t.selected_window == s.selected_window
            &&& t.message == s.message
            &&& t.glyph == s.glyph
            &&& t.grid == s.grid
        }),
{
}

/// Printing with the map window selected writes the character at the cursor's
/// cell before the write and advances the column by one; with another window
/// selected it advances the column and leaves the grid as it was.
pub proof fn lemma_print(s: LoggerView, c: char)
    requires
        s.grid.len() == GRID_CELLS,
        s.cursor_x < u16::MAX,
        s.selected_window == MAP_WINDOW ==> in_grid(s.cursor_y, s.cursor_x),
    ensures
        spec_print(s, c) is Ok,
        ({
            let t = spec_print(s, c)->Ok_0;
            &&& t.cursor_x == s.cursor_x + 1
            &&& t.cursor_y == s.cursor_y
            &&& t.grid.len() == s.grid.len()
            &&& s.selected_window == MAP_WINDOW ==> t.grid[cell_index(s.cursor_y, s.cursor_x)]
                == c
            &&& forall|i: int|
                0 <= i < s.grid.len() && (s.selected_window != MAP_WINDOW || i != cell_index(
                    s.cursor_y,
                    s.cursor_x,
                )) ==> #[trigger] t.grid[i] == s.grid[i]
        }),
{
}

/// A window switch emits one snapshot first when the map window was selected
/// and none otherwise, then one message block with the old window's id and
/// exactly its gathered text when that text is not empty and none otherwise;
/// afterwards the new window is selected and the gathered text is empty.
pub proof fn lemma_window_select(s: LoggerView, window: u16)
    ensures
        spec_apply_tiledata(s, TileData::WindowSelect(window)) is Ok,
        ({
            let (t, events) = spec_apply_tiledata(s, TileData::WindowSelect(window))->Ok_0;
            let snapshots: int = if s.selected_window == MAP_WINDOW {
                1
            } else {
                0
            };
            let blocks: int = if s.message.len() > 0 {
                1
            } else {
                0
            };
            &&& events.len() == snapshots + blocks
            &&& s.selected_window == MAP_WINDOW ==> events[0] == snapshot_of(s)
            &&& s.message.len() > 0 ==> events[events.len() - 1] == EventView::MessageBlock(
                s.selected_window,
                s.message,
            )
            &&& forall|i: int|
                0 <= i < events.len() ==> (#[trigger] events[i] is ScreenSnapshot <==> (
                s.selected_window == MAP_WINDOW && i == 0))
            &&& t.selected_window == window
            &&& t.message.len() == 0
            &&& t.grid == s.grid
            &&& t.cursor_x == s.cursor_x
            &&& t.cursor_y == s.cursor_y
        }),
{
}

/// The end of an update emits exactly one snapshot, of the current grid,
/// whichever window is selected, and changes nothing.
pub proof fn lemma_data_end(s: LoggerView)
    ensures
        spec_apply_tiledata(s, TileData::DataEnd) == Ok::<(LoggerView, Seq<EventView>), CoreError>(
            (s, seq![snapshot_of(s)]),
        ),
{
}

/// A glyph start outside the map window fails with `InvalidContext` and
/// leaves the state as it was.
pub proof fn lemma_glyph_start_outside_map(
    s: LoggerView,
    tile: u16,
    flags: u16,
    t: LoggerView,
    r: Result<Vec<Event>, CoreError>,
)
    requires
        s.selected_window != MAP_WINDOW,
        step_matches(spec_apply_tiledata(s, TileData::GlyphStart(tile, flags)), s, t, r),
    ensures
        r == Err::<Vec<Event>, CoreError>(CoreError::InvalidContext),
        t == s,
{
}

} // verus!
