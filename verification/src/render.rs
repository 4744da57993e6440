//! Tile rendering: fills a tile's pixel block with one solid RGBA color
//! derived from the tile index through a seeded pseudo-random generator,
//! so a tile's pixels depend on its index alone.

use rand::Rng;
use rand::SeedableRng;
use vstd::prelude::*;

verus! {

/// The solid color drawn for a tile: the first three draws of a ChaCha20
/// generator seeded with the tile index. A function of the index alone.
pub uninterp spec fn color_of_tile(tile_idx: u32) -> (u8, u8, u8);

/// Relies on rand_chacha::ChaCha20Rng::seed_from_u64 and rand::Rng::gen_range:
/// ChaCha20 is a deterministic generator, so the three values drawn from a
/// generator seeded with the tile index depend on that index alone.
#[verifier::external_body]
fn tile_color(tile_idx: u32) -> (color: (u8, u8, u8))
    ensures
        color == color_of_tile(tile_idx),
{
    let mut rng = rand_chacha::ChaCha20Rng::seed_from_u64(tile_idx as u64);
    let r: u8 = rng.gen_range(0..255);
    let g: u8 = rng.gen_range(0..255);
    let b: u8 = rng.gen_range(0..255);
    (r, g, b)
}

/// Byte `i` of a rendered tile's pixel block: the tile's solid color in
/// RGBA order, with full alpha.
pub open spec fn rendered_byte(tile_idx: u32, i: int) -> u8 {
    if i % 4 == 0 {
        color_of_tile(tile_idx).0
    } else if i % 4 == 1 {
        color_of_tile(tile_idx).1
    } else if i % 4 == 2 {
        color_of_tile(tile_idx).2
    } else {
        255
    }
}

/// A rendered pixel block of `n` bytes for tile `tile_idx`: the tile's
/// solid color repeated, full alpha.
pub open spec fn rendered_block(tile_idx: u32, n: int) -> Seq<u8> {
    Seq::new(n as nat, |i: int| rendered_byte(tile_idx, i))
}

/// Renders a single tile: fills the whole pixel block with the tile's
/// solid color, full alpha.
#[verifier::loop_isolation(false)]
pub fn render_tile(tile_idx: u32, tile_pixels: &mut Vec<u8>)
    requires
        old(tile_pixels).len() % 4 == 0,
    ensures
        final(tile_pixels).len() == old(tile_pixels).len(),
        forall|i: int|
            0 <= i < old(tile_pixels).len() ==> final(tile_pixels)@[i] == rendered_byte(
                tile_idx,
                i,
            ),
{
    let (r, g, b) = tile_color(tile_idx);
    let n = tile_pixels.len();
    let pixel_count = n / 4;
    proof {
        vstd::arithmetic::div_mod::lemma_fundamental_div_mod(n as int, 4);
    }
    let mut p: usize = 0;
    while p < pixel_count
        invariant
            0 <= p <= pixel_count,
            tile_pixels.len() == n,
            forall|i: int| 0 <= i < p * 4 ==> tile_pixels@[i] == rendered_byte(tile_idx, i),
        decreases pixel_count - p,
    {
        let base = p * 4;
        proof {
            vstd::arithmetic::div_mod::lemma_fundamental_div_mod_converse(
                base as int,
                4,
                p as int,
                0,
            );
            vstd::arithmetic::div_mod::lemma_fundamental_div_mod_converse(
                base + 1,
                4,
                p as int,
                1,
            );
            vstd::arithmetic::div_mod::lemma_fundamental_div_mod_converse(
                base + 2,
                4,
                p as int,
                2,
            );
            vstd::arithmetic::div_mod::lemma_fundamental_div_mod_converse(
                base + 3,
                4,
                p as int,
                3,
            );
        }
        tile_pixels.set(base, r);
        tile_pixels.set(base + 1, g);
        tile_pixels.set(base + 2, b);
        tile_pixels.set(base + 3, 255);
        p = p + 1;
    }
}

} // verus!
