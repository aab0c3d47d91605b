//! An input identified by a channel id.

use crate::channel_id;
use crate::common::Message;
use lossyq::spsc::Receiver;
use vstd::prelude::*;

verus! {

/// The receiving half of a queue together with the id of the channel end it
/// was created for.
#[verifier::reject_recursive_types(Input)]
pub struct IdentifiedReceiver<Input: Copy + Send> {
    pub id: channel_id::Id,
    pub input: Receiver<Message<Input>>,
}

} // verus!
