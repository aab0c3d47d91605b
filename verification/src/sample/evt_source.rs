//! A source that sends a zero on each run and counts its runs.

use crate::elem::source::Source;
use crate::lossy::{put_usize_message, sent_usize};
use crate::scheduler::event::{count_after_notify, Event};
use crate::Message;
use lossyq::spsc::Sender;
use vstd::prelude::*;

verus! {

/// A source that sends `Value(0)` and notifies `on_exec` on each run.
pub struct EvtSource {
    on_exec: Event,
}

impl EvtSource {
    pub closed spec fn spec_on_exec(&self) -> Event {
        self.on_exec
    }
}

impl Source for EvtSource {
    type OutputValue = usize;
    type OutputError = &'static str;

    open spec fn process_effect(
        old: Self,
        new: Self,
        old_output: Sender<Message<usize, &'static str>>,
        new_output: Sender<Message<usize, &'static str>>,
        old_stop: bool,
        new_stop: bool,
    ) -> bool {
        &&& new.spec_on_exec().spec_count() == count_after_notify(old.spec_on_exec().spec_count())
        &&& sent_usize(new_output) == sent_usize(old_output).push(Message::Value(0))
        &&& new_stop == old_stop
    }

    fn process(&mut self, output: &mut Sender<Message<usize, &'static str>>, stop: &mut bool) {
        put_usize_message(output, Message::Value(0));
        self.on_exec.notify();
    }
}

/// A source that sends `Value(0)` and notifies `on_exec` on each run.
pub fn new(on_exec: Event) -> (res: EvtSource)
    ensures
        res.spec_on_exec() == on_exec,
{
    EvtSource { on_exec }
}

} // verus!
