//! A filter that does nothing.

use crate::elem::filter::Filter;
use crate::{ChannelWrapper, Message};
use lossyq::spsc::Sender;
use vstd::prelude::*;

verus! {

/// A filter that leaves its input and output alone.
#[allow(dead_code)]
struct DummyFilter {}

impl Filter for DummyFilter {
    type InputValue = usize;
    type InputError = &'static str;
    type OutputValue = usize;
    type OutputError = &'static str;

    open spec fn process_effect(
        old: Self,
        new: Self,
        old_input: ChannelWrapper<usize, &'static str>,
        new_input: ChannelWrapper<usize, &'static str>,
        old_output: Sender<Message<usize, &'static str>>,
        new_output: Sender<Message<usize, &'static str>>,
        old_stop: bool,
        new_stop: bool,
    ) -> bool {
        &&& new_input == old_input
        &&& new_output == old_output
        &&& new_stop == old_stop
    }

    fn process(
        &mut self,
        input: &mut ChannelWrapper<usize, &'static str>,
        output: &mut Sender<Message<usize, &'static str>>,
        stop: &mut bool,
    ) {
    }
}

} // verus!
