//! The tile scheduler: builds a randomized permutation of all tile
//! indices and feeds them into the bounded work channel, checking for a
//! stop signal before each send.

use rand::seq::SliceRandom;
use std::sync::mpsc::{Receiver, SyncSender};
use vstd::prelude::*;

use crate::channel::{poll_stop, send_reliable};
use crate::config::AppConfig;
use crate::messages::{Signal, WorkMessage};

verus! {

/// Relies on rand::seq::SliceRandom::shuffle (driven by rand::thread_rng):
/// the slice afterwards holds exactly the elements it held before,
/// rearranged; which arrangement comes out is chance.
#[verifier::external_body]
fn shuffle_tiles(v: &mut Vec<u32>)
    ensures
        final(v)@.to_multiset() == old(v)@.to_multiset(),
{
    let mut rng = rand::thread_rng();
    v.shuffle(&mut rng);
}

/// Builds the schedule: a uniformly random permutation of the tile
/// indices `0 .. tile_count`, each appearing exactly once.
pub fn schedule_order(config: &AppConfig) -> (r: Vec<u32>)
    requires
        config.valid(),
    ensures
        r@.len() == config.spec_tiles(),
        r@.no_duplicates(),
        forall|j: int| 0 <= j < r@.len() ==> r@[j] < config.spec_tiles(),
        forall|t: u32| t < config.spec_tiles() ==> r@.contains(t),
{
    broadcast use vstd::seq_lib::group_to_multiset_ensures;

    let n = config.tiles();
    let mut v: Vec<u32> = Vec::new();
    let mut i: u32 = 0;
    while i < n
        invariant
            i <= n,
            v@.len() == i,
            forall|j: int| 0 <= j < i ==> v@[j] == j,
        decreases n - i,
    {
        v.push(i);
        i = i + 1;
    }
    let ghost base = v@;
    assert(base.no_duplicates());
    shuffle_tiles(&mut v);
    proof {
        base.lemma_multiset_has_no_duplicates();
        assert(v@.len() == n) by {
            assert(v@.to_multiset().len() == base.to_multiset().len());
        }
        assert forall|j: int| 0 <= j < v@.len() implies v@[j] < n by {
            assert(v@.contains(v@[j]));
            assert(v@.to_multiset().count(v@[j]) > 0);
            assert(base.to_multiset().count(v@[j]) > 0);
            assert(base.contains(v@[j]));
            let k = choose|k: int| 0 <= k < base.len() && base[k] == v@[j];
            assert(base[k] == k);
        }
        assert forall|t: u32| t < n implies v@.contains(t) by {
            assert(base[t as int] == t);
            assert(base.contains(t));
            assert(base.to_multiset().count(t) > 0);
            assert(v@.to_multiset().count(t) > 0);
        }
        assert forall|x: u32| v@.to_multiset().contains(x) implies v@.to_multiset().count(x)
            == 1 by {
            assert(base.to_multiset().count(x) > 0);
            assert(base.contains(x));
        }
        v@.lemma_multiset_has_no_duplicates_conv();
    }
    v
}

/// Runs the Scheduler: enqueues each scheduled tile on the work channel
/// with Reliable Send, in order; a stop signal, or a gone stop channel,
/// seen before a send abandons the remaining tiles at once.
pub fn run_scheduler(
    order: &Vec<u32>,
    stop_rx: &Receiver<Signal>,
    work_tx: &SyncSender<WorkMessage>,
)
{
    let mut idx: usize = 0;
    while idx < order.len()
        invariant
            idx <= order.len(),
        decreases order.len() - idx,
    {
        if poll_stop(stop_rx) {
            return ;
        }
        send_reliable(work_tx, WorkMessage::Process(order[idx]));
        idx = idx + 1;
    }
}

} // verus!
