//! A source that sends nothing.

use crate::elem::source::Source;
use crate::Message;
use lossyq::spsc::Sender;
use vstd::prelude::*;

verus! {

/// A source that leaves its output alone.
pub struct DummySource {}

impl Source for DummySource {
    type OutputValue = usize;
    type OutputError = &'static str;

    open spec fn process_effect(
        old: Self,
        new: Self,
        old_output: Sender<Message<usize, &'static str>>,
        new_output: Sender<Message<usize, &'static str>>,
        old_stop: bool,
        new_stop: bool,
    ) -> bool {
        &&& new_output == old_output
        &&& new_stop == old_stop
    }

    fn process(&mut self, output: &mut Sender<Message<usize, &'static str>>, stop: &mut bool) {
    }
}

impl DummySource {
    pub fn new() -> DummySource {
        DummySource {}
    }
}

} // verus!
