//! Routing of tokenizer callbacks into the screen model and the window tracker.

use vstd::prelude::*;
use crate::error::CoreError;
use crate::params::{coordinate, coordinate_or_zero, first_value, group_value, groups_of, param_groups};
use crate::screen::{
    grid_lines, spec_move, spec_position, Direction, Logger, LoggerView, MAP_WINDOW,
};
use crate::tiledata::{spec_decode_tiledata, TileData};

verus! {

/// What the logger reports while it follows the stream.
#[derive(Debug, Clone, PartialEq, Eq)]
pub enum Event {
    /// The map grid, one line per row.
    ScreenSnapshot(Vec<Vec<char>>),
    /// The text gathered for a window, with that window's id.
    MessageBlock(u16, Vec<char>),
    /// The glyph that a block of glyph metadata referred to.
    GlyphDecoded(char),
}

/// An event as mathematical values.
pub enum EventView {
    ScreenSnapshot(Seq<Seq<char>>),
    MessageBlock(u16, Seq<char>),
    GlyphDecoded(char),
}

impl View for Event {
    type V = EventView;

    open spec fn view(&self) -> EventView {
        match self {
            Event::ScreenSnapshot(lines) => EventView::ScreenSnapshot(lines.deep_view()),
            Event::MessageBlock(window, text) => EventView::MessageBlock(*window, text@),
            Event::GlyphDecoded(c) => EventView::GlyphDecoded(*c),
        }
    }
}

/// The views of a list of events.
pub open spec fn events_view(events: Seq<Event>) -> Seq<EventView> {
    events.map_values(|e: Event| e@)
}

/// The snapshot of the grid of `s`.
pub open spec fn snapshot_of(s: LoggerView) -> EventView {
    EventView::ScreenSnapshot(grid_lines(s.grid))
}

/// What a window switch emits from `s`: a snapshot when the map
/// window was selected, then the gathered text of the old window, if any.
pub open spec fn switch_events(s: LoggerView) -> Seq<EventView> {
    let snapshot = if s.selected_window == MAP_WINDOW {
        seq![snapshot_of(s)]
    } else {
        Seq::empty()
    };
    let message = if s.message.len() > 0 {
        seq![EventView::MessageBlock(s.selected_window, s.message)]
    } else {
        Seq::empty()
    };
    snapshot + message
}

/// The state and events after the tracker applies `cmd` in state `s`.
pub open spec fn spec_apply_tiledata(s: LoggerView, cmd: TileData) -> Result<
    (LoggerView, Seq<EventView>),
    CoreError,
> {
    match cmd {
        TileData::WindowSelect(window) => Ok(
            (
                LoggerView { selected_window: window, message: Seq::empty(), ..s },
                switch_events(s),
            ),
        ),
        TileData::DataEnd => Ok((s, seq![snapshot_of(s)])),
        TileData::GlyphStart(_, _) => if s.selected_window == MAP_WINDOW {
            Ok((s, Seq::empty()))
        } else {
            Err(CoreError::InvalidContext)
        },
        TileData::GlyphEnd => Ok((s, seq![EventView::GlyphDecoded(s.glyph)])),
    }
}

/// The direction that a movement final byte names.
pub open spec fn direction_of(c: char) -> Option<Direction> {
    if c == 'A' {
        Some(Direction::Up)
    } else if c == 'B' {
        Some(Direction::Down)
    } else if c == 'C' {
        Some(Direction::Right)
    } else if c == 'D' {
        Some(Direction::Left)
    } else {
        None
    }
}

/// The state and events after a control sequence with parameter groups `p`,
/// ignore flag `ignore` and final byte `c` arrives in state `s`.
///
/// Movement takes its count from the first group, which must be there;
/// positioning defaults each omitted coordinate to zero; `z` carries tiledata;
/// every other final byte, and every sequence marked to ignore, changes nothing.
pub open spec fn spec_csi(s: LoggerView, p: Seq<Seq<u16>>, ignore: bool, c: char) -> Result<
    (LoggerView, Seq<EventView>),
    CoreError,
> {
    if ignore {
        Ok((s, Seq::empty()))
    } else if direction_of(c) is Some {
        match group_value(p, 0) {
            None => Err(CoreError::MalformedParameters),
            Some(n) => match spec_move(s, direction_of(c)->Some_0, n) {
                Ok(t) => Ok((t, Seq::empty())),
                Err(e) => Err(e),
            },
        }
    } else if c == 'H' {
        Ok((spec_position(s, coordinate_or_zero(p, 0), coordinate_or_zero(p, 1)), Seq::empty()))
    } else if c == 'z' {
        match spec_decode_tiledata(p) {
            Ok(cmd) => spec_apply_tiledata(s, cmd),
            Err(e) => Err(e),
        }
    } else {
        Ok((s, Seq::empty()))
    }
}

/// `r` and the new state `t` are what `expected` gives from `s`; on an
/// error the state is `s` unchanged.
pub open spec fn step_matches(
    expected: Result<(LoggerView, Seq<EventView>), CoreError>,
    s: LoggerView,
    t: LoggerView,
    r: Result<Vec<Event>, CoreError>,
) -> bool {
    match expected {
        Ok((u, events)) => r is Ok && t == u && events_view(r->Ok_0@) == events,
        Err(e) => r == Err::<Vec<Event>, CoreError>(e) && t == s,
    }
}

impl Logger {
    /// Applies one tiledata command to the window tracker.
    pub fn apply_tiledata(&mut self, cmd: TileData) -> (r: Result<Vec<Event>, CoreError>)
        requires
            old(self).wf(),
        ensures
            final(self).wf(),
            step_matches(spec_apply_tiledata(old(self)@, cmd), old(self)@, final(self)@, r),
    {
        let mut events: Vec<Event> = Vec::new();
        match cmd {
            TileData::WindowSelect(window) => {
                if self.selected_window == MAP_WINDOW {
                    events.push(Event::ScreenSnapshot(self.snapshot()));
                }
                if self.current_message.len() > 0 {
                    let mut text: Vec<char> = Vec::new();
                    std::mem::swap(&mut text, &mut self.current_message);
                    events.push(Event::MessageBlock(self.selected_window, text));
                }
                self.current_message = Vec::new();
                self.selected_window = window;
                assert(events_view(events@) =~= switch_events(old(self)@));
            },
            TileData::DataEnd => {
                events.push(Event::ScreenSnapshot(self.snapshot()));
                assert(events_view(events@) =~= seq![snapshot_of(old(self)@)]);
            },
            TileData::GlyphStart(_, _) => {
                if self.selected_window != MAP_WINDOW {
                    return Err(CoreError::InvalidContext);
                }
                assert(events_view(events@) =~= Seq::<EventView>::empty());
            },
            TileData::GlyphEnd => {
                events.push(Event::GlyphDecoded(self.current_glyph));
                assert(events_view(events@) =~= seq![EventView::GlyphDecoded(old(self)@.glyph)]);
            },
        }
        Ok(events)
    }

    /// Applies one control sequence: parameter groups `params`, the
    /// tokenizer's ignore flag and the final byte `c`.
    pub fn csi_dispatch(&mut self, params: &Vec<Vec<u16>>, ignore: bool, c: char) -> (r: Result<
        Vec<Event>,
        CoreError,
    >)
        requires
            old(self).wf(),
        ensures
            final(self).wf(),
            step_matches(
                spec_csi(old(self)@, params.deep_view(), ignore, c),
                old(self)@,
                final(self)@,
                r,
            ),
    {
        let none: Vec<Event> = Vec::new();
        assert(events_view(none@) =~= Seq::<EventView>::empty());
        if ignore {
            return Ok(none);
        }
        let direction = if c == 'A' {
            Some(Direction::Up)
        } else if c == 'B' {
            Some(Direction::Down)
        } else if c == 'C' {
            Some(Direction::Right)
        } else if c == 'D' {
            Some(Direction::Left)
        } else {
            None
        };
        if let Some(d) = direction {
            match first_value(params, 0) {
                None => Err(CoreError::MalformedParameters),
                Some(n) => match self.move_relative(d, n) {
                    Ok(()) => Ok(none),
                    Err(e) => Err(e),
                },
            }
        } else if c == 'H' {
            let row = coordinate(params, 0);
            let column = coordinate(params, 1);
            self.move_absolute(row, column);
            Ok(none)
        } else if c == 'z' {
            match TileData::from_params(params) {
                Ok(cmd) => self.apply_tiledata(cmd),
                Err(e) => Err(e),
            }
        } else {
            Ok(none)
        }
    }

    /// Applies one control sequence as the tokenizer hands it over.
    pub fn csi_dispatch_params(&mut self, params: &vte::Params, ignore: bool, c: char) -> (r:
        Result<Vec<Event>, CoreError>)
        requires
            old(self).wf(),
        ensures
            final(self).wf(),
            step_matches(
                spec_csi(old(self)@, param_groups(*params), ignore, c),
                old(self)@,
                final(self)@,
                r,
            ),
    {
        let groups = groups_of(params);
        self.csi_dispatch(&groups, ignore, c)
    }
}

} // verus!
