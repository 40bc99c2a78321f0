//! When an app is ready: once every asset that blocks readiness has loaded.

use vstd::prelude::*;

verus! {

/// What an asset is known by.
#[derive(Debug, Clone, Copy, PartialEq, Eq, Structural, Hash)]
pub enum AssetKey {
    /// A place in the store of assets.
    Index(u64),
    /// A name that is the same in every run.
    Uuid(u128),
}

/// An entity that blocks readiness until its asset has loaded.
#[derive(Debug, Clone, Copy, PartialEq, Eq, Structural, Hash)]
pub struct AssetBlock {
    pub entity: u64,
    pub asset: AssetKey,
}

/// What follows from the assets that have just loaded.
#[derive(Debug, Clone, PartialEq, Eq)]
pub struct ReadyOutcome {
    /// The entities that block no longer: one for each pair of a loaded asset
    /// and a block on it, by loaded asset first and by block second.
    pub unblocked: Vec<u64>,
    /// Whether the app is ready now.
    pub app_ready: bool,
}

/// The entities among the first `count` of `blocks` that wait for `asset`.
pub open spec fn waiting_for(asset: AssetKey, blocks: Seq<AssetBlock>, count: nat) -> Seq<u64>
    decreases count,
{
    if count == 0 || count > blocks.len() {
        Seq::empty()
    } else {
        let earlier = waiting_for(asset, blocks, (count - 1) as nat);
        if blocks[count - 1].asset == asset {
            earlier.push(blocks[count - 1].entity)
        } else {
            earlier
        }
    }
}

/// The entities that the first `count` of `loaded` set free.
pub open spec fn set_free(loaded: Seq<AssetKey>, blocks: Seq<AssetBlock>, count: nat) -> Seq<u64>
    decreases count,
{
    if count == 0 || count > loaded.len() {
        Seq::empty()
    } else {
        set_free(loaded, blocks, (count - 1) as nat) + waiting_for(
            loaded[count - 1],
            blocks,
            blocks.len(),
        )
    }
}

/// Whether the app is ready: something blocked, and as many blocks were
/// lifted as there were.
pub open spec fn ready(total_blocks: nat, total_ready: nat) -> bool {
    total_blocks > 0 && total_blocks == total_ready
}

/// Lifts the blocks on the assets that have just loaded, and decides whether
/// the app is ready. `blocks` are the blocks on assets of the kind that loaded,
/// `total_blocks` counts the blocks on assets of every kind.
pub fn ready_on_asset_load(loaded: &Vec<AssetKey>, blocks: &Vec<AssetBlock>, total_blocks: usize) -> (outcome:
    ReadyOutcome)
    ensures
        outcome.unblocked@ == set_free(loaded@, blocks@, loaded@.len()),
        outcome.app_ready == ready(total_blocks as nat, outcome.unblocked@.len()),
{
    let mut unblocked: Vec<u64> = Vec::new();
    let mut i: usize = 0;
    while i < loaded.len()
        invariant
            i <= loaded@.len(),
            unblocked@ == set_free(loaded@, blocks@, i as nat),
        decreases loaded@.len() - i,
    {
        let ghost before = unblocked@;
        let mut j: usize = 0;
        while j < blocks.len()
            invariant
                i < loaded@.len(),
                j <= blocks@.len(),
                unblocked@ == before + waiting_for(loaded@[i as int], blocks@, j as nat),
            decreases blocks@.len() - j,
        {
            if blocks[j].asset == loaded[i] {
                unblocked.push(blocks[j].entity);
            }
            assert(unblocked@ =~= before + waiting_for(loaded@[i as int], blocks@, (j + 1) as nat));
            j += 1;
        }
        i += 1;
    }
    let app_ready = total_blocks > 0 && total_blocks == unblocked.len();
    ReadyOutcome { unblocked, app_ready }
}

} // verus!
