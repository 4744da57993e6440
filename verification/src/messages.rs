//! The typed control messages exchanged over the pipeline's bounded
//! channels, and the payload carrying one rendered tile.

use vstd::prelude::*;

verus! {

/// One rendered tile: its index and its RGBA pixel block.
#[derive(Debug)]
pub struct TilePixels {
    /// The tile's index.
    pub tile_idx: u32,
    /// The tile's pixel block, rows `tile_size` pixels wide.
    pub pixels: Vec<u8>,
}

/// A message on the work channel: a tile to render, or the order to stop.
#[derive(Debug)]
pub enum WorkMessage {
    /// Render this tile.
    Process(u32),
    /// Poison pill: the receiving worker exits its loop.
    Stop,
}

/// A message on the result channel: a rendered tile to merge, or the
/// order to stop.
#[derive(Debug)]
pub enum ResultMessage {
    /// Merge this rendered tile into the frame buffer.
    Merge(TilePixels),
    /// Poison pill: the merger exits its loop.
    Stop,
}

/// The payload-less message on the control channels.
#[derive(Clone, Copy, Debug, PartialEq, Eq, Structural)]
pub enum Signal {
    /// The one stop signal.
    Stop,
}

} // verus!
