//! The logger's state: cursor, map grid, selected window and message text.

use vstd::prelude::*;
use crate::error::CoreError;

verus! {

/// Rows of the map grid.
pub const MAP_ROWS: u16 = 20;
/// Columns of the map grid.
pub const MAP_COLUMNS: u16 = 80;
/// Cells of the map grid, row-major.
pub const GRID_CELLS: usize = 1600;
/// Id of the window whose prints land in the grid.
pub const MAP_WINDOW: u16 = 3;
/// The selected window before any window was selected.
pub const NO_WINDOW: u16 = 255;
/// What a grid cell holds before anything was printed there.
pub const BLANK: char = ' ';

/// The state that the control stream drives.
///
/// `map_buffer` holds `MAP_ROWS` rows of `MAP_COLUMNS` cells, row-major.
pub struct Logger {
    pub selected_window: u16,
    pub current_message: Vec<char>,
    pub current_glyph: char,
    pub cursor_x: u16,
    pub cursor_y: u16,
    pub map_buffer: Vec<char>,
}

/// The logger's state as mathematical values.
pub struct LoggerView {
    pub selected_window: u16,
    pub message: Seq<char>,
    pub glyph: char,
    pub cursor_x: u16,
    pub cursor_y: u16,
    pub grid: Seq<char>,
}

impl View for Logger {
    type V = LoggerView;

    open spec fn view(&self) -> LoggerView {
        LoggerView {
            selected_window: self.selected_window,
            message: self.current_message@,
            glyph: self.current_glyph,
            cursor_x: self.cursor_x,
            cursor_y: self.cursor_y,
            grid: self.map_buffer@,
        }
    }
}

/// A direction of relative cursor movement.
#[derive(Debug, Clone, Copy, PartialEq, Eq, Structural)]
pub enum Direction {
    Up,
    Down,
    Right,
    Left,
}

/// Whether the cell at `row`, `column` lies in the grid.
pub open spec fn in_grid(row: u16, column: u16) -> bool {
    row < MAP_ROWS && column < MAP_COLUMNS
}

/// Row-major index of the cell at `row`, `column`.
pub open spec fn cell_index(row: u16, column: u16) -> int {
    row * MAP_COLUMNS + column
}

/// The grid as its rows, in row order.
pub open spec fn grid_lines(grid: Seq<char>) -> Seq<Seq<char>> {
    Seq::new(
        MAP_ROWS as nat,
        |r: int| grid.subrange(r * MAP_COLUMNS, r * MAP_COLUMNS + MAP_COLUMNS),
    )
}

/// The state after moving the cursor `n` cells in direction `d`; an error
/// where the coordinate would leave the range of `u16`.
pub open spec fn spec_move(s: LoggerView, d: Direction, n: u16) -> Result<LoggerView, CoreError> {
    match d {
        Direction::Up => if s.cursor_y >= n {
            Ok(LoggerView { cursor_y: (s.cursor_y - n) as u16, ..s })
        } else {
            Err(CoreError::CursorOutOfRange)
        },
        Direction::Down => if s.cursor_y + n <= u16::MAX {
            Ok(LoggerView { cursor_y: (s.cursor_y + n) as u16, ..s })
        } else {
            Err(CoreError::CursorOutOfRange)
        },
        Direction::Right => if s.cursor_x + n <= u16::MAX {
            Ok(LoggerView { cursor_x: (s.cursor_x + n) as u16, ..s })
        } else {
            Err(CoreError::CursorOutOfRange)
        },
        Direction::Left => if s.cursor_x >= n {
            Ok(LoggerView { cursor_x: (s.cursor_x - n) as u16, ..s })
        } else {
            Err(CoreError::CursorOutOfRange)
        },
    }
}

/// The state after placing the cursor at `row`, `column`.
pub open spec fn spec_position(s: LoggerView, row: u16, column: u16) -> LoggerView {
    LoggerView { cursor_y: row, cursor_x: column, ..s }
}

/// The state after printing `c`: `c` becomes the current glyph and joins the
/// message text, lands in the grid when the map window is selected, and the
/// column advances by one.
pub open spec fn spec_print(s: LoggerView, c: char) -> Result<LoggerView, CoreError> {
    if s.cursor_x == u16::MAX {
        Err(CoreError::CursorOutOfRange)
    } else if s.selected_window == MAP_WINDOW {
        if in_grid(s.cursor_y, s.cursor_x) {
            Ok(LoggerView {
                glyph: c,
                message: s.message.push(c),
                grid: s.grid.update(cell_index(s.cursor_y, s.cursor_x), c),
                cursor_x: (s.cursor_x + 1) as u16,
                ..s
            })
        } else {
            Err(CoreError::CursorOutOfRange)
        }
    } else {
        Ok(LoggerView {
            glyph: c,
            message: s.message.push(c),
            cursor_x: (s.cursor_x + 1) as u16,
            ..s
        })
    }
}

impl Logger {
    /// The grid has its fixed size.
    pub open spec fn wf(&self) -> bool {
        self.map_buffer@.len() == GRID_CELLS
    }

    /// A logger with a blank grid, the cursor at the origin and no window selected.
    pub fn new() -> (r: Logger)
        ensures
            r.wf(),
            r.selected_window == NO_WINDOW,
            r.current_message@.len() == 0,
            r.current_glyph == BLANK,
            r.cursor_x == 0,
            r.cursor_y == 0,
            forall|i: int| 0 <= i < GRID_CELLS ==> r.map_buffer@[i] == BLANK,
    {
        let mut map_buffer: Vec<char> = Vec::new();
        let mut i: usize = 0;
        while i < GRID_CELLS
            invariant
                i <= GRID_CELLS,
                map_buffer@.len() == i,
                forall|j: int| 0 <= j < i ==> map_buffer@[j] == BLANK,
            decreases GRID_CELLS - i,
        {
            map_buffer.push(BLANK);
            i = i + 1;
        }
        Logger {
            selected_window: NO_WINDOW,
            current_message: Vec::new(),
            current_glyph: BLANK,
            cursor_x: 0,
            cursor_y: 0,
            map_buffer,
        }
    }

    /// Whether the grid has its fixed size; `new` and every method keep it so.
    pub fn is_well_formed(&self) -> (r: bool)
        ensures
            r == self.wf(),
    {
        self.map_buffer.len() == GRID_CELLS
    }

    /// Moves the cursor `n` cells in direction `d`, without clamping to the grid.
    pub fn move_relative(&mut self, d: Direction, n: u16) -> (r: Result<(), CoreError>)
        ensures
            final(self).wf() == old(self).wf(),
            match spec_move(old(self)@, d, n) {
                Ok(t) => r is Ok && final(self)@ == t,
                Err(e) => r == Err::<(), CoreError>(e) && final(self)@ == old(self)@,
            },
    {
        match d {
            Direction::Up => {
                if self.cursor_y < n {
                    return Err(CoreError::CursorOutOfRange);
                }
                self.cursor_y = self.cursor_y - n;
            },
            Direction::Down => {
                if self.cursor_y > u16::MAX - n {
                    return Err(CoreError::CursorOutOfRange);
                }
                self.cursor_y = self.cursor_y + n;
            },
            Direction::Right => {
                if self.cursor_x > u16::MAX - n {
                    return Err(CoreError::CursorOutOfRange);
                }
                self.cursor_x = self.cursor_x + n;
            },
            Direction::Left => {
                if self.cursor_x < n {
                    return Err(CoreError::CursorOutOfRange);
                }
                self.cursor_x = self.cursor_x - n;
            },
        }
        Ok(())
    }

    /// Places the cursor at `row`, `column`.
    pub fn move_absolute(&mut self, row: u16, column: u16)
        ensures
            final(self).wf() == old(self).wf(),
            final(self)@ == spec_position(old(self)@, row, column),
    {
        self.cursor_y = row;
        self.cursor_x = column;
    }

    /// Prints `c` at the cursor.
    pub fn print(&mut self, c: char) -> (r: Result<(), CoreError>)
        requires
            old(self).wf(),
        ensures
            final(self).wf(),
            match spec_print(old(self)@, c) {
                Ok(t) => r is Ok && final(self)@ == t,
                Err(e) => r == Err::<(), CoreError>(e) && final(self)@ == old(self)@,
            },
    {
        if self.cursor_x == u16::MAX {
            return Err(CoreError::CursorOutOfRange);
        }
        if self.selected_window == MAP_WINDOW {
            if self.cursor_y >= MAP_ROWS || self.cursor_x >= MAP_COLUMNS {
                return Err(CoreError::CursorOutOfRange);
            }
            let index: usize = self.cursor_y as usize * MAP_COLUMNS as usize
                + self.cursor_x as usize;
            assert(index < GRID_CELLS) by (nonlinear_arith)
                requires
                    index == self.cursor_y * 80 + self.cursor_x,
                    self.cursor_y < 20,
                    self.cursor_x < 80,
            ;
            self.map_buffer.set(index, c);
        }
        self.current_glyph = c;
        self.current_message.push(c);
        self.cursor_x = self.cursor_x + 1;
        Ok(())
    }

    /// The grid as lines, one per row, in row order.
    pub fn snapshot(&self) -> (r: Vec<Vec<char>>)
        requires
            self.wf(),
        ensures
            r.deep_view() == grid_lines(self.map_buffer@),
    {
        let mut lines: Vec<Vec<char>> = Vec::new();
        let mut row: usize = 0;
        while row < MAP_ROWS as usize
            invariant
                self.wf(),
                row <= MAP_ROWS,
                lines@.len() == row,
                forall|k: int| 0 <= k < row ==> #[trigger] lines@[k]@
                    == self.map_buffer@.subrange(k * 80, k * 80 + 80),
            decreases MAP_ROWS - row,
        {
            let start: usize = row * MAP_COLUMNS as usize;
            let mut line: Vec<char> = Vec::new();
            let mut col: usize = 0;
            while col < MAP_COLUMNS as usize
                invariant
                    self.wf(),
                    row < MAP_ROWS,
                    start == row * 80,
                    col <= MAP_COLUMNS,
                    line@ == self.map_buffer@.subrange(start as int, start + col),
                decreases MAP_COLUMNS - col,
            {
                line.push(self.map_buffer[start + col]);
                col = col + 1;
                assert(line@ =~= self.map_buffer@.subrange(start as int, start + col));
            }
            lines.push(line);
            row = row + 1;
        }
        assert forall|k: int| 0 <= k < MAP_ROWS implies #[trigger] lines@[k].deep_view()
            == grid_lines(self.map_buffer@)[k] by {
            assert(lines@[k].deep_view() =~= lines@[k]@);
        }
        assert(lines.deep_view() =~= grid_lines(self.map_buffer@));
        lines
    }
}

impl Default for Logger {
    fn default() -> (r: Logger)
        ensures
            r.wf(),
            r.selected_window == NO_WINDOW,
            r.current_message@.len() == 0,
            r.current_glyph == BLANK,
            r.cursor_x == 0,
            r.cursor_y == 0,
            forall|i: int| 0 <= i < GRID_CELLS ==> r.map_buffer@[i] == BLANK,
    {
        Logger::new()
    }
}

} // verus!
