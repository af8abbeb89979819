use vstd::prelude::*;

verus! {

/// Why a control sequence could not be applied.
///
/// A sequence that fails leaves the logger's state as it was.
#[derive(Debug, Clone, Copy, PartialEq, Eq, Structural)]
pub enum CoreError {
    /// A required numeric parameter is missing or has the wrong shape.
    MalformedParameters,
    /// The first parameter of a tiledata sequence is not the tiledata selector.
    UnrecognizedSelector,
    /// The tiledata sub-command is not one of the four known ones.
    UnknownSubcommand,
    /// A glyph start arrived while the map window was not selected.
    InvalidContext,
    /// A cursor movement or a print would leave the cursor's range, or a map
    /// print would fall outside the grid.
    CursorOutOfRange,
}

} // verus!
