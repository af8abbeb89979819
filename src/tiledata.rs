//! The tiledata sub-protocol carried by the `z` control sequence.

use vstd::prelude::*;
use crate::error::CoreError;
use crate::params::{group_single, group_value, first_value, single_value};

verus! {

/// The first parameter that every tiledata sequence carries.
pub const TILEDATA_SELECTOR: u16 = 1;

/// One decoded tiledata command.
#[derive(Debug, Clone, Copy, PartialEq, Eq, Structural)]
pub enum TileData {
    /// Metadata for the glyph about to be printed: tile id and flag bits.
    GlyphStart(u16, u16),
    /// End of the metadata of the glyph just printed.
    GlyphEnd,
    /// The application now writes to the window with this id.
    WindowSelect(u16),
    /// The application finished one update of the screen.
    DataEnd,
}

/// What a tiledata sequence with parameter groups `p` decodes to.
pub open spec fn spec_decode_tiledata(p: Seq<Seq<u16>>) -> Result<TileData, CoreError> {
    if p.len() == 0 {
        Err(CoreError::MalformedParameters)
    } else if group_single(p, 0) != Some(TILEDATA_SELECTOR) {
        Err(CoreError::UnrecognizedSelector)
    } else if p.len() == 1 {
        Err(CoreError::MalformedParameters)
    } else {
        match group_single(p, 1) {
            Some(0u16) => match (group_single(p, 2), group_single(p, 3)) {
                (Some(tile), Some(flags)) => Ok(TileData::GlyphStart(tile, flags)),
                _ => Err(CoreError::MalformedParameters),
            },
            Some(1u16) => Ok(TileData::GlyphEnd),
            Some(2u16) => match group_value(p, 2) {
                Some(window) => Ok(TileData::WindowSelect(window)),
                None => Err(CoreError::MalformedParameters),
            },
            Some(3u16) => Ok(TileData::DataEnd),
            _ => Err(CoreError::UnknownSubcommand),
        }
    }
}

impl TileData {
    /// Decodes the parameter groups of a tiledata sequence.
    pub fn from_params(params: &Vec<Vec<u16>>) -> (r: Result<TileData, CoreError>)
        ensures
            r == spec_decode_tiledata(params.deep_view()),
    {
        if params.len() == 0 {
            return Err(CoreError::MalformedParameters);
        }
        if single_value(params, 0) != Some(TILEDATA_SELECTOR) {
            return Err(CoreError::UnrecognizedSelector);
        }
        if params.len() == 1 {
            return Err(CoreError::MalformedParameters);
        }
        match single_value(params, 1) {
            Some(0u16) => match (single_value(params, 2), single_value(params, 3)) {
                (Some(tile), Some(flags)) => Ok(TileData::GlyphStart(tile, flags)),
                _ => Err(CoreError::MalformedParameters),
            },
            Some(1u16) => Ok(TileData::GlyphEnd),
            Some(2u16) => match first_value(params, 2) {
                Some(window) => Ok(TileData::WindowSelect(window)),
                None => Err(CoreError::MalformedParameters),
            },
            Some(3u16) => Ok(TileData::DataEnd),
            _ => Err(CoreError::UnknownSubcommand),
        }
    }
}

} // verus!
