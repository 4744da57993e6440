//! The shared frame buffer: an RGBA byte buffer for the whole image, and
//! the merge step that copies one rendered tile's pixel block into its
//! rectangle. Merging every tile exactly once, in any order, writes every
//! byte of the buffer exactly once.

use vstd::prelude::*;

use crate::config::{lemma_mul_le, AppConfig};
use crate::tile::{
    get_tile_bounds, lemma_tile_contains_iff, lemma_tile_of_in_range, spec_tile_of, spec_x_min,
    spec_y_min, tile_contains,
};

verus! {

/// x coordinate of the pixel that frame byte `i` belongs to.
pub open spec fn byte_px(c: AppConfig, i: int) -> int {
    (i / 4) % c.width as int
}

/// y coordinate of the pixel that frame byte `i` belongs to.
pub open spec fn byte_py(c: AppConfig, i: int) -> int {
    (i / 4) / c.width as int
}

/// Channel (within RGBA) of frame byte `i`.
pub open spec fn byte_channel(i: int) -> int {
    i % 4
}

/// Whether frame byte `i` lies inside tile `t`'s rectangle.
pub open spec fn covers_byte(c: AppConfig, t: int, i: int) -> bool {
    tile_contains(c, t, byte_px(c, i), byte_py(c, i))
}

/// Size in bytes of one (unclipped) tile's pixel block.
pub open spec fn spec_tile_pix_bytes(c: AppConfig) -> int {
    c.tile_size * c.tile_size * 4
}

/// Index into a tile's pixel block of the byte that lands at frame byte
/// `i`; rows of the block are `tile_size` pixels wide.
pub open spec fn tile_src_byte(c: AppConfig, t: int, i: int) -> int {
    ((byte_py(c, i) - spec_y_min(c, t)) * c.tile_size + (byte_px(c, i) - spec_x_min(c, t))) * 4
        + byte_channel(i)
}

/// The frame after tile `t`'s pixel block `pix` is merged into `frame`:
/// bytes inside the tile's rectangle come from `pix`, the rest keep their
/// value.
pub open spec fn apply_tile(c: AppConfig, frame: Seq<u8>, t: int, pix: Seq<u8>) -> Seq<u8> {
    Seq::new(
        frame.len(),
        |i: int|
            if covers_byte(c, t, i) {
                pix[tile_src_byte(c, t, i)]
            } else {
                frame[i]
            },
    )
}

/// Allocates the frame buffer for the whole image, all bytes zero.
pub fn new_frame(config: &AppConfig) -> (r: Vec<u8>)
    requires
        config.valid(),
    ensures
        r@.len() == config.spec_frame_bytes(),
        forall|i: int| 0 <= i < r@.len() ==> r@[i] == 0,
{
    proof {
        lemma_mul_le(
            config.width as int * config.height as int,
            1,
            config.width as int * config.height as int,
            4,
        );
    }
    let n: usize = ((config.width as u64 * config.height as u64) as usize) * 4;
    let mut r: Vec<u8> = Vec::new();
    let mut i: usize = 0;
    while i < n
        invariant
            i <= n,
            r@.len() == i,
            forall|j: int| 0 <= j < i ==> r@[j] == 0,
        decreases n - i,
    {
        r.push(0);
        i = i + 1;
    }
    r
}

/// Copies one rendered tile's pixel block into its rectangle of the frame
/// buffer, row by row; every other byte of the frame keeps its value.
#[verifier::loop_isolation(false)]
pub fn copy_tile(config: &AppConfig, tile_idx: u32, tile_pixels: &Vec<u8>, frame: &mut Vec<u8>)
    requires
        config.valid(),
        tile_idx < config.spec_tiles(),
        tile_pixels.len() >= spec_tile_pix_bytes(*config),
        old(frame).len() == config.spec_frame_bytes(),
    ensures
        final(frame)@ == apply_tile(*config, old(frame)@, tile_idx as int, tile_pixels@),
{
    let ghost c = *config;
    let ghost t = tile_idx as int;
    let ghost orig = old(frame)@;
    let (x_min, y_min, x_max, y_max) = get_tile_bounds(config, tile_idx);
    let w = config.width;
    let ts4: usize = config.tile_size as usize * 4;
    let tw: u32 = x_max - x_min + 1;
    let row_bytes: usize = tw as usize * 4;
    proof {
        lemma_mul_le(config.tile_size as int, 4, 255, 4);
    }

    let mut y: u32 = y_min;
    while y <= y_max
        invariant
            y_min <= y <= y_max + 1,
            frame@.len() == orig.len(),
            forall|i: int|
                0 <= i < orig.len() ==> frame@[i] == (if covers_byte(c, t, i) && byte_py(c, i) < y {
                    tile_pixels@[tile_src_byte(c, t, i)]
                } else {
                    orig[i]
                }),
        decreases y_max + 1 - y,
    {
        proof {
            lemma_byte_compose(c, x_min as int, y as int, 0);
            lemma_mul_le((y - y_min) as int, ts4 as int, 254, 1020);
        }
        let dst_start: usize = ((y as u64 * w as u64 + x_min as u64) * 4) as usize;
        let src_start: usize = (y - y_min) as usize * ts4;
        proof {
            assert(((y - y_min) * c.tile_size) * 4 == (y - y_min) * (c.tile_size as int * 4))
                by (nonlinear_arith);
            assert forall|i: int|
                0 <= i < orig.len() && covers_byte(c, t, i) && byte_py(c, i) == y implies i
                >= dst_start by {
                lemma_byte_decompose(c, i);
            }
        }
        let mut k: usize = 0;
        while k < row_bytes
            invariant
                0 <= k <= row_bytes,
                frame@.len() == orig.len(),
                forall|i: int|
                    0 <= i < orig.len() ==> frame@[i] == (if covers_byte(c, t, i) && (byte_py(
                        c,
                        i,
                    ) < y || (byte_py(c, i) == y && i < dst_start + k)) {
                        tile_pixels@[tile_src_byte(c, t, i)]
                    } else {
                        orig[i]
                    }),
            decreases row_bytes - k,
        {
            let ghost x = x_min as int + k as int / 4;
            let ghost ch = k as int % 4;
            proof {
                vstd::arithmetic::div_mod::lemma_fundamental_div_mod(k as int, 4);
                vstd::arithmetic::div_mod::lemma_mod_bound(k as int, 4);
                lemma_byte_compose(c, x, y as int, ch);
                assert(dst_start + k == (y as int * c.width + x) * 4 + ch);
                assert(covers_byte(c, t, dst_start + k));
                assert(tile_src_byte(c, t, dst_start + k as int) == src_start + k);
                lemma_src_byte_in_block(c, t, dst_start + k as int);
            }
            let b = tile_pixels[src_start + k];
            frame.set(dst_start + k, b);
            k = k + 1;
        }
        proof {
            assert forall|i: int|
                0 <= i < orig.len() && covers_byte(c, t, i) && byte_py(c, i) == y implies i
                < dst_start + row_bytes by {
                lemma_byte_decompose(c, i);
            }
        }
        y = y + 1;
    }
    proof {
        assert forall|i: int| 0 <= i < orig.len() && covers_byte(c, t, i) implies byte_py(c, i)
            <= y_max by {
            lemma_byte_decompose(c, i);
        }
        assert(frame@ =~= apply_tile(c, orig, t, tile_pixels@));
    }
}

/// A byte index of the frame decomposes into pixel coordinates inside the
/// image and a channel.
pub proof fn lemma_byte_decompose(c: AppConfig, i: int)
    requires
        c.valid(),
        0 <= i < c.spec_frame_bytes(),
    ensures
        0 <= byte_px(c, i) < c.width,
        0 <= byte_py(c, i) < c.height,
        0 <= byte_channel(i) < 4,
        i == (byte_py(c, i) * c.width + byte_px(c, i)) * 4 + byte_channel(i),
{
    let w = c.width as int;
    let h = c.height as int;
    let p = i / 4;
    vstd::arithmetic::div_mod::lemma_fundamental_div_mod(i, 4);
    vstd::arithmetic::div_mod::lemma_mod_bound(i, 4);
    vstd::arithmetic::div_mod::lemma_fundamental_div_mod(p, w);
    vstd::arithmetic::div_mod::lemma_mod_bound(p, w);
    assert(p < w * h) by (nonlinear_arith)
        requires
            i == 4 * p + i % 4,
            0 <= i % 4 < 4,
            i < w * h * 4;
    assert(p >= 0) by (nonlinear_arith)
        requires
            i == 4 * p + i % 4,
            0 <= i % 4 < 4,
            i >= 0;
    assert(p / w < h) by (nonlinear_arith)
        requires
            p == w * (p / w) + p % w,
            0 <= p % w < w,
            p < w * h,
            w >= 1;
    assert(p / w >= 0) by (nonlinear_arith)
        requires
            p == w * (p / w) + p % w,
            0 <= p % w < w,
            p >= 0,
            w >= 1;
}

/// Pixel coordinates inside the image and a channel give back the byte
/// index they came from.
pub proof fn lemma_byte_compose(c: AppConfig, x: int, y: int, ch: int)
    requires
        c.valid(),
        0 <= x < c.width,
        0 <= y < c.height,
        0 <= ch < 4,
    ensures
        0 <= (y * c.width + x) * 4 + ch < c.spec_frame_bytes(),
        byte_px(c, (y * c.width + x) * 4 + ch) == x,
        byte_py(c, (y * c.width + x) * 4 + ch) == y,
        byte_channel((y * c.width + x) * 4 + ch) == ch,
{
    let w = c.width as int;
    let h = c.height as int;
    let p = y * w + x;
    assert(0 <= p && p < w * h) by (nonlinear_arith)
        requires
            p == y * w + x,
            0 <= x < w,
            0 <= y < h;
    let i = p * 4 + ch;
    vstd::arithmetic::div_mod::lemma_fundamental_div_mod_converse(i, 4, p, ch);
    vstd::arithmetic::div_mod::lemma_fundamental_div_mod_converse(p, w, y, x);
    assert(i < w * h * 4) by (nonlinear_arith)
        requires
            i == p * 4 + ch,
            p < w * h,
            ch < 4;
}

/// The byte of the tile's pixel block that lands at a covered frame byte
/// lies inside the block.
pub proof fn lemma_src_byte_in_block(c: AppConfig, t: int, i: int)
    requires
        c.valid(),
        0 <= t < c.spec_tiles(),
        0 <= i < c.spec_frame_bytes(),
        covers_byte(c, t, i),
    ensures
        0 <= tile_src_byte(c, t, i) < spec_tile_pix_bytes(c),
{
    lemma_byte_decompose(c, i);
    let ts = c.tile_size as int;
    let dx = byte_px(c, i) - spec_x_min(c, t);
    let dy = byte_py(c, i) - spec_y_min(c, t);
    assert(0 <= dx < ts && 0 <= dy < ts);
    assert(0 <= dy * ts + dx && (dy * ts + dx) * 4 + byte_channel(i) < ts * ts * 4)
        by (nonlinear_arith)
        requires
            0 <= dx < ts,
            0 <= dy < ts,
            0 <= byte_channel(i) < 4;
}

/// Well-formed merge input: each entry pairs a tile index inside the tile
/// count with a pixel block of at least one tile's bytes.
pub open spec fn wf_results(c: AppConfig, items: Seq<(u32, Seq<u8>)>) -> bool {
    forall|j: int|
        0 <= j < items.len() ==> (#[trigger] items[j]).0 < c.spec_tiles() && items[j].1.len()
            >= spec_tile_pix_bytes(c)
}

/// No tile index appears twice among the merge inputs.
pub open spec fn distinct_tiles(items: Seq<(u32, Seq<u8>)>) -> bool {
    forall|j1: int, j2: int|
        0 <= j1 < j2 < items.len() ==> (#[trigger] items[j1]).0 != (#[trigger] items[j2]).0
}

/// Some merge input carries tile index `t`.
pub open spec fn has_tile(items: Seq<(u32, Seq<u8>)>, t: int) -> bool {
    exists|j: int| 0 <= j < items.len() && (#[trigger] items[j]).0 == t
}

/// Every tile index below the tile count appears among the merge inputs.
pub open spec fn all_tiles_present(c: AppConfig, items: Seq<(u32, Seq<u8>)>) -> bool {
    forall|t: int| 0 <= t < c.spec_tiles() ==> #[trigger] has_tile(items, t)
}

/// The frame after the given tile results are merged, in order.
pub open spec fn merge_results(c: AppConfig, frame: Seq<u8>, items: Seq<(u32, Seq<u8>)>) -> Seq<
    u8,
>
    decreases items.len(),
{
    if items.len() == 0 {
        frame
    } else {
        apply_tile(
            c,
            merge_results(c, frame, items.drop_last()),
            items.last().0 as int,
            items.last().1,
        )
    }
}

/// Merging never changes the frame's length.
pub proof fn lemma_merge_results_len(c: AppConfig, frame: Seq<u8>, items: Seq<(u32, Seq<u8>)>)
    ensures
        merge_results(c, frame, items).len() == frame.len(),
    decreases items.len(),
{
    if items.len() > 0 {
        lemma_merge_results_len(c, frame, items.drop_last());
    }
}

/// Two tiles that both cover a byte of the frame are the same tile.
proof fn lemma_covering_tile_unique(c: AppConfig, t1: int, t2: int, i: int)
    requires
        c.valid(),
        0 <= t1 < c.spec_tiles(),
        0 <= t2 < c.spec_tiles(),
        0 <= i < c.spec_frame_bytes(),
        covers_byte(c, t1, i),
        covers_byte(c, t2, i),
    ensures
        t1 == t2,
{
    lemma_byte_decompose(c, i);
    lemma_tile_contains_iff(c, t1, byte_px(c, i), byte_py(c, i));
    lemma_tile_contains_iff(c, t2, byte_px(c, i), byte_py(c, i));
}

/// After a sequence of merges with pairwise distinct tiles, a byte covered
/// by one of the merged tiles holds that tile's pixel, and a byte covered
/// by none keeps its initial value.
pub proof fn lemma_merge_results_byte(
    c: AppConfig,
    frame: Seq<u8>,
    items: Seq<(u32, Seq<u8>)>,
    i: int,
)
    requires
        c.valid(),
        frame.len() == c.spec_frame_bytes(),
        wf_results(c, items),
        distinct_tiles(items),
        0 <= i < frame.len(),
    ensures
        forall|j: int|
            0 <= j < items.len() && covers_byte(c, (#[trigger] items[j]).0 as int, i)
                ==> merge_results(c, frame, items)[i] == items[j].1[tile_src_byte(
                c,
                items[j].0 as int,
                i,
            )],
        (forall|j: int| 0 <= j < items.len() ==> !covers_byte(c, (#[trigger] items[j]).0 as int, i))
            ==> merge_results(c, frame, items)[i] == frame[i],
    decreases items.len(),
{
    if items.len() == 0 {
    } else {
        let prefix = items.drop_last();
        let last = items.last();
        let merged = merge_results(c, frame, items);
        let merged_prefix = merge_results(c, frame, prefix);
        lemma_merge_results_len(c, frame, prefix);
        lemma_merge_results_byte(c, frame, prefix, i);
        assert(forall|j: int| 0 <= j < prefix.len() ==> prefix[j] == items[j]);
        if covers_byte(c, last.0 as int, i) {
            assert(merged[i] == last.1[tile_src_byte(c, last.0 as int, i)]);
            assert forall|j: int|
                0 <= j < items.len() && covers_byte(c, (#[trigger] items[j]).0 as int, i) implies
                merged[i] == items[j].1[tile_src_byte(c, items[j].0 as int, i)] by {
                lemma_covering_tile_unique(c, items[j].0 as int, last.0 as int, i);
                if j < items.len() - 1 {
                    // Distinctness rules out an earlier entry with the same tile.
                    assert(items[j].0 != last.0);
                }
            }
        } else {
            assert(merged[i] == merged_prefix[i]);
        }
    }
}

/// Byte `i` of the merged frame was written by one of the merge inputs:
/// some input's tile covers the byte, and the byte holds that input's
/// pixel data.
pub open spec fn byte_from_merged_tile(
    c: AppConfig,
    frame: Seq<u8>,
    items: Seq<(u32, Seq<u8>)>,
    i: int,
) -> bool {
    exists|j: int|
        0 <= j < items.len() && covers_byte(c, (#[trigger] items[j]).0 as int, i)
            && merge_results(c, frame, items)[i] == items[j].1[tile_src_byte(
            c,
            items[j].0 as int,
            i,
        )]
}

/// Law: a run that merges every tile exactly once, in whatever order the
/// results arrive, leaves every byte of the frame buffer equal to the byte
/// produced by the single tile whose rectangle covers it.
pub proof fn lemma_complete_run_covers_frame(
    c: AppConfig,
    frame: Seq<u8>,
    items: Seq<(u32, Seq<u8>)>,
)
    requires
        c.valid(),
        frame.len() == c.spec_frame_bytes(),
        wf_results(c, items),
        distinct_tiles(items),
        all_tiles_present(c, items),
    ensures
        merge_results(c, frame, items).len() == frame.len(),
        forall|i: int|
            0 <= i < frame.len() ==> #[trigger] byte_from_merged_tile(c, frame, items, i),
{
    lemma_merge_results_len(c, frame, items);
    assert forall|i: int| 0 <= i < frame.len() implies #[trigger] byte_from_merged_tile(
        c,
        frame,
        items,
        i,
    ) by {
        lemma_byte_decompose(c, i);
        let x = byte_px(c, i);
        let y = byte_py(c, i);
        lemma_tile_of_in_range(c, x, y);
        let t = spec_tile_of(c, x, y);
        lemma_tile_contains_iff(c, t, x, y);
        assert(has_tile(items, t));
        let j = choose|j: int| 0 <= j < items.len() && (#[trigger] items[j]).0 == t;
        assert(covers_byte(c, items[j].0 as int, i));
        lemma_merge_results_byte(c, frame, items, i);
    }
}

} // verus!
