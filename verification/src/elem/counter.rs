//! Per-channel message counters of an element.

use crate::{ReceiverChannelId, SenderChannelId};
use vstd::prelude::*;

verus! {

/// Counts what arrived on an element's inputs.
pub trait InputCounter {
    fn get_rx_count(&self, ch_id: ReceiverChannelId) -> usize;
}

/// Counts what an element sent on its outputs.
pub trait OutputCounter {
    fn get_tx_count(&self, ch_id: SenderChannelId) -> usize;
}

} // verus!
