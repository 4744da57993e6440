//! The merger step: what the single merger thread does with one message
//! from the result channel. A rendered tile is copied into its rectangle
//! of the frame buffer; the poison pill ends the drain.

use vstd::prelude::*;

use crate::config::AppConfig;
use crate::framebuffer::{apply_tile, copy_tile, spec_tile_pix_bytes};
use crate::messages::ResultMessage;

verus! {

/// One merger iteration: merges a completed tile's pixel block into the
/// frame buffer, leaving every byte outside the tile's rectangle as it
/// was; the poison pill stops the drain and leaves the frame unchanged.
pub fn merger_step(config: &AppConfig, msg: ResultMessage, frame: &mut Vec<u8>) -> (stop: bool)
    requires
        config.valid(),
        old(frame).len() == config.spec_frame_bytes(),
        msg matches ResultMessage::Merge(tp) ==> tp.tile_idx < config.spec_tiles()
            && tp.pixels.len() >= spec_tile_pix_bytes(*config),
    ensures
        final(frame).len() == old(frame).len(),
        msg matches ResultMessage::Merge(tp) ==> !stop && final(frame)@ == apply_tile(
            *config,
            old(frame)@,
            tp.tile_idx as int,
            tp.pixels@,
        ),
        msg is Stop ==> stop && final(frame)@ == old(frame)@,
{
    match msg {
        ResultMessage::Merge(tp) => {
            copy_tile(config, tp.tile_idx, &tp.pixels, frame);
            false
        },
        ResultMessage::Stop => true,
    }
}

} // verus!
