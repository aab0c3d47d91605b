//! A sink that does nothing.

use crate::elem::sink::Sink;
use crate::ChannelWrapper;
use vstd::prelude::*;

verus! {

/// A sink that leaves its input alone.
pub struct DummySink {}

impl Sink for DummySink {
    type InputValue = usize;
    type InputError = &'static str;

    open spec fn process_effect(
        old: Self,
        new: Self,
        old_input: ChannelWrapper<usize, &'static str>,
        new_input: ChannelWrapper<usize, &'static str>,
        old_stop: bool,
        new_stop: bool,
    ) -> bool {
        new_input == old_input && new_stop == old_stop
    }

    fn process(&mut self, input: &mut ChannelWrapper<usize, &'static str>, stop: &mut bool) {
    }
}

} // verus!
