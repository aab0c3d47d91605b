//! The source of the latency-measuring sample pipeline.

use crate::elem::source::Source;
use crate::lossy::{put_tick_message, sent_tick};
use crate::sample::tick::Tick;
use crate::scheduler::event::{count_after_notify, Event};
use crate::Message;
use lossyq::spsc::Sender;
use vstd::prelude::*;

verus! {

/// A source that sends the current time and notifies `on_exec` on each run.
pub struct MeasuredPipelineSource {
    on_exec: Event,
}

impl Source for MeasuredPipelineSource {
    type OutputValue = Tick;
    type OutputError = &'static str;

    open spec fn process_effect(
        old: Self,
        new: Self,
        old_output: Sender<Message<Tick, &'static str>>,
        new_output: Sender<Message<Tick, &'static str>>,
        old_stop: bool,
        new_stop: bool,
    ) -> bool {
        &&& new.spec_on_exec().spec_count() == count_after_notify(old.spec_on_exec().spec_count())
        &&& exists|t: Tick| sent_tick(new_output) == #[trigger] sent_tick(old_output).push(Message::Value(t))
        &&& new_stop == old_stop
    }

    fn process(&mut self, output: &mut Sender<Message<Tick, &'static str>>, stop: &mut bool) {
        let now = Tick::new();
        put_tick_message(output, Message::Value(now));
        assert(sent_tick(*output) == sent_tick(*old(output)).push(Message::Value(now)));
        self.on_exec.notify();
    }
}

impl MeasuredPipelineSource {
    pub closed spec fn spec_on_exec(&self) -> Event {
        self.on_exec
    }

    pub fn new(on_exec: Event) -> (res: MeasuredPipelineSource)
        ensures
            res.spec_on_exec() == on_exec,
    {
        MeasuredPipelineSource { on_exec }
    }

    /// How many times the source has run, as its event counted.
    pub fn exec_count(&self) -> (res: u64)
        ensures
            res == self.spec_on_exec().spec_count(),
    {
        self.on_exec.ready(0).1
    }
}

/// A source that sends the current time and notifies `on_exec` on each run.
pub fn new(on_exec: Event) -> (res: MeasuredPipelineSource)
    ensures
        res.spec_on_exec() == on_exec,
{
    MeasuredPipelineSource::new(on_exec)
}

} // verus!
