//! A complete pipeline run as one verified sequence of steps: every tile
//! is scheduled once, rendered by the worker step, and merged by the
//! merger step. The concurrent pipeline interleaves these steps across
//! threads; the frame they produce is the frame this run produces,
//! because merges of distinct tiles touch disjoint bytes.

use vstd::prelude::*;

use crate::config::AppConfig;
use crate::framebuffer::{
    all_tiles_present, byte_channel, byte_from_merged_tile, byte_px, byte_py, covers_byte,
    distinct_tiles, has_tile, lemma_byte_decompose, lemma_complete_run_covers_frame,
    lemma_src_byte_in_block, merge_results, spec_tile_pix_bytes, tile_src_byte, wf_results,
};
use crate::merger::merger_step;
use crate::messages::{ResultMessage, WorkMessage};
use crate::render::{rendered_block, rendered_byte};
use crate::scheduler::schedule_order;
use crate::tile::{lemma_tile_contains_iff, spec_tile_of};
use crate::worker::{new_tile_buffer, worker_step, WorkerAction};

verus! {

/// The byte a completed run leaves at frame byte `i`: the channel within
/// RGBA of the solid color of the tile whose rectangle covers the byte's
/// pixel.
pub open spec fn final_frame_byte(c: AppConfig, i: int) -> u8 {
    rendered_byte(spec_tile_of(c, byte_px(c, i), byte_py(c, i)) as u32, byte_channel(i))
}

/// Runs the pipeline to completion with no early stop: schedules all
/// tiles in randomized order, renders each once, and merges each result.
/// Every byte of the frame buffer ends written by exactly one merge: the
/// byte rendered by the single tile that covers it.
#[verifier::loop_isolation(false)]
pub fn render_all(config: &AppConfig, frame: &mut Vec<u8>)
    requires
        config.valid(),
        old(frame).len() == config.spec_frame_bytes(),
    ensures
        final(frame).len() == old(frame).len(),
        forall|i: int|
            0 <= i < old(frame).len() ==> final(frame)@[i] == final_frame_byte(*config, i),
{
    let ghost c = *config;
    let ghost orig = old(frame)@;
    let order = schedule_order(config);
    let mut scratch = new_tile_buffer(config);
    let ghost mut items: Seq<(u32, Seq<u8>)> = Seq::empty();
    let mut idx: usize = 0;
    while idx < order.len()
        invariant
            idx <= order.len(),
            scratch.len() == spec_tile_pix_bytes(c),
            frame.len() == orig.len(),
            items.len() == idx,
            forall|j: int|
                0 <= j < idx ==> (#[trigger] items[j]).0 == order@[j] && items[j].1
                    == rendered_block(order@[j], spec_tile_pix_bytes(c)),
            frame@ == merge_results(c, orig, items),
        decreases order.len() - idx,
    {
        let t = order[idx];
        let action = worker_step(config, WorkMessage::Process(t), &mut scratch);
        match action {
            WorkerAction::Rendered(tp) => {
                let ghost before = frame@;
                let ghost pix = tp.pixels@;
                merger_step(config, ResultMessage::Merge(tp), frame);
                proof {
                    let prev = items;
                    items = items.push((t, pix));
                    assert(items.drop_last() =~= prev);
                    assert(items.last() == (t, pix));
                }
            },
            WorkerAction::Exit => {
                proof {
                    assert(false);
                }
            },
        }
        idx = idx + 1;
    }
    proof {
        assert(wf_results(c, items));
        assert(distinct_tiles(items));
        assert forall|t: int| 0 <= t < c.spec_tiles() implies #[trigger] has_tile(items, t) by {
            assert(order@.contains(t as u32));
            let k = choose|k: int| 0 <= k < order@.len() && order@[k] == t as u32;
            assert(items[k].0 == t);
        }
        assert(all_tiles_present(c, items));
        lemma_complete_run_covers_frame(c, orig, items);
        assert forall|i: int| 0 <= i < orig.len() implies frame@[i] == final_frame_byte(c, i) by {
            assert(byte_from_merged_tile(c, orig, items, i));
            let j = choose|j: int|
                0 <= j < items.len() && covers_byte(c, (#[trigger] items[j]).0 as int, i)
                    && merge_results(c, orig, items)[i] == items[j].1[tile_src_byte(
                    c,
                    items[j].0 as int,
                    i,
                )];
            let t = items[j].0 as int;
            lemma_byte_decompose(c, i);
            lemma_tile_contains_iff(c, t, byte_px(c, i), byte_py(c, i));
            assert(t == spec_tile_of(c, byte_px(c, i), byte_py(c, i)));
            lemma_src_byte_in_block(c, t, i);
            let src = tile_src_byte(c, t, i);
            assert(src % 4 == byte_channel(i)) by {
                vstd::arithmetic::div_mod::lemma_fundamental_div_mod_converse_mod(
                    src,
                    4,
                    (byte_py(c, i) - crate::tile::spec_y_min(c, t)) * c.tile_size + (byte_px(c, i)
                        - crate::tile::spec_x_min(c, t)),
                    byte_channel(i),
                );
            }
            vstd::arithmetic::div_mod::lemma_small_mod(byte_channel(i) as nat, 4);
            assert(rendered_byte(items[j].0, src) == rendered_byte(
                items[j].0,
                byte_channel(i),
            ));
        }
    }
}

} // verus!
