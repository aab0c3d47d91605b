//! The output counter of an element, on its own.

use crate::SenderChannelId;
use vstd::prelude::*;

verus! {

/// Counts what an element sent on its outputs.
pub trait OutputCounter {
    fn get_tx_count(&self, ch_id: SenderChannelId) -> usize;
}

} // verus!
