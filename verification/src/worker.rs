//! The worker step: what one worker does with one message from the work
//! channel. Rendering a tile fills the worker's reusable scratch block
//! with the tile's color and hands out a copy; the poison pill ends the
//! worker's loop. The simulated render latency is drawn here too.

use rand::Rng;
use vstd::prelude::*;

use crate::config::AppConfig;
use crate::framebuffer::spec_tile_pix_bytes;
use crate::messages::{TilePixels, WorkMessage};
use crate::render::{render_tile, rendered_block};

verus! {

/// What the worker's loop does after one message.
pub enum WorkerAction {
    /// Send this rendered tile to the result channel, then sleep the
    /// simulated latency.
    Rendered(TilePixels),
    /// Exit the loop; the stop is not propagated.
    Exit,
}

/// Allocates one tile's scratch pixel block, all bytes zero, sized for an
/// unclipped tile. Each worker creates one at start and reuses it.
pub fn new_tile_buffer(config: &AppConfig) -> (r: Vec<u8>)
    ensures
        r@.len() == spec_tile_pix_bytes(*config),
        forall|i: int| 0 <= i < r@.len() ==> r@[i] == 0,
{
    let n = config.tiles_pixel_bytes();
    let mut r: Vec<u8> = Vec::new();
    let mut i: usize = 0;
    while i < n
        invariant
            i <= n,
            r@.len() == i,
            forall|j: int| 0 <= j < i ==> r@[j] == 0,
        decreases n - i,
    {
        r.push(0);
        i = i + 1;
    }
    r
}

/// An owned copy of a byte block.
fn clone_bytes(v: &Vec<u8>) -> (r: Vec<u8>)
    ensures
        r@ == v@,
{
    let mut r: Vec<u8> = Vec::new();
    let mut i: usize = 0;
    while i < v.len()
        invariant
            i <= v@.len(),
            r@ == v@.subrange(0, i as int),
        decreases v@.len() - i,
    {
        r.push(v[i]);
        proof {
            assert(r@ =~= v@.subrange(0, i + 1));
        }
        i = i + 1;
    }
    proof {
        assert(r@ =~= v@);
    }
    r
}

/// One worker iteration: on a tile, renders it into the scratch block and
/// returns the block's copy paired with the tile index; on the poison
/// pill, orders the exit.
pub fn worker_step(config: &AppConfig, msg: WorkMessage, scratch: &mut Vec<u8>) -> (r: WorkerAction)
    requires
        config.valid(),
        old(scratch).len() == spec_tile_pix_bytes(*config),
        msg matches WorkMessage::Process(t) ==> t < config.spec_tiles(),
    ensures
        final(scratch).len() == old(scratch).len(),
        msg matches WorkMessage::Process(t) ==> (r matches WorkerAction::Rendered(tp)
            && tp.tile_idx == t && tp.pixels@ == rendered_block(t, spec_tile_pix_bytes(*config))
            && final(scratch)@ == tp.pixels@),
        msg is Stop ==> r is Exit && final(scratch)@ == old(scratch)@,
{
    match msg {
        WorkMessage::Process(tile_idx) => {
            proof {
                vstd::arithmetic::div_mod::lemma_fundamental_div_mod_converse(
                    scratch.len() as int,
                    4,
                    config.tile_size as int * config.tile_size as int,
                    0,
                );
            }
            render_tile(tile_idx, scratch);
            let pixels = clone_bytes(scratch);
            proof {
                assert(pixels@ =~= rendered_block(tile_idx, spec_tile_pix_bytes(*config)));
            }
            WorkerAction::Rendered(TilePixels { tile_idx, pixels })
        },
        WorkMessage::Stop => WorkerAction::Exit,
    }
}

/// Relies on rand::Rng::gen_range (driven by rand::thread_rng): the draw
/// from the inclusive range `1 ..= max_load_millis` lies inside it. The
/// value is chance; it only paces the simulated render.
#[verifier::external_body]
pub fn simulated_load_millis(config: &AppConfig) -> (r: u64)
    requires
        config.max_load_millis >= 1,
    ensures
        1 <= r <= config.max_load_millis,
{
    let mut rng = rand::thread_rng();
    rng.gen_range(1..=config.max_load_millis)
}

} // verus!
