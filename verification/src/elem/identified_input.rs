//! Identification of what an element's inputs are connected to.

use crate::{ChannelId, ReceiverChannelId, SenderName};
use vstd::prelude::*;

verus! {

/// Tells which channel, from which sender, an input is connected to.
pub trait IdentifiedInput {
    fn get_input_id(&self, ch_id: ReceiverChannelId) -> Option<(ChannelId, SenderName)>;
}

} // verus!
