//! Decoding of a terminal byte stream that carries the vt_tiledata extension.
//!
//! A tokenizer of the ANSI/VT100 grammar hands this library one callback per
//! token. The library keeps the cursor, the map grid and the selected window,
//! decodes the tiledata sub-protocol, and emits the events that the stream
//! implies: screen snapshots, message blocks and decoded glyphs.

pub mod error;
pub mod params;
pub mod tiledata;
pub mod screen;
pub mod dispatch;
pub mod laws;
