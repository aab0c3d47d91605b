//! A sink that counts its runs and the messages it receives.

use crate::elem::sink::Sink;
use crate::scheduler::event::{count_after_notifications, count_after_notify, Event};
use crate::{same_apart_from_queue, take_messages, ChannelWrapper, Message, Schedule};
use vstd::prelude::*;

verus! {

/// A sink that notifies `on_exec` on each run and `on_msg` for each message.
pub struct EvtSink {
    on_exec: Event,
    on_msg: Event,
}

impl EvtSink {
    pub closed spec fn spec_on_exec(&self) -> Event {
        self.on_exec
    }

    pub closed spec fn spec_on_msg(&self) -> Event {
        self.on_msg
    }

    /// Notifies `on_msg` once for each message in `msgs`.
    pub fn count_messages(&mut self, msgs: &Vec<Message<usize, &'static str>>)
        ensures
            final(self).spec_on_msg().spec_count() == count_after_notifications(
                old(self).spec_on_msg().spec_count(),
                msgs@.len(),
            ),
            final(self).spec_on_exec() == old(self).spec_on_exec(),
    {
        self.on_msg.notify_times(msgs.len());
    }

    /// One run: notifies `on_exec`; on a connected input, takes the waiting
    /// messages and notifies `on_msg` once per message; any other input is
    /// left alone. Always asks to be run again in the loop.
    pub fn step(&mut self, input: &mut ChannelWrapper<usize, &'static str>) -> (res: Schedule)
        ensures
            res == Schedule::Loop,
            final(self).spec_on_exec().spec_count() == count_after_notify(old(self).spec_on_exec().spec_count()),
            same_apart_from_queue(*old(input), *final(input)),
            *old(input) is ConnectedReceiver ==> exists|n: nat|
                final(self).spec_on_msg().spec_count() == #[trigger] count_after_notifications(
                    old(self).spec_on_msg().spec_count(),
                    n,
                ),
            !(*old(input) is ConnectedReceiver) ==> final(self).spec_on_msg() == old(self).spec_on_msg()
                && *final(input) == *old(input),
    {
        self.on_exec.notify();
        if let Some(msgs) = take_messages(input) {
            self.count_messages(&msgs);
            let ghost count = msgs@.len();
            assert(self.spec_on_msg().spec_count() == count_after_notifications(
                old(self).spec_on_msg().spec_count(),
                count,
            ));
        }
        Schedule::Loop
    }
}

impl Sink for EvtSink {
    type InputValue = usize;
    type InputError = &'static str;

    open spec fn process_effect(
        old: Self,
        new: Self,
        old_input: ChannelWrapper<usize, &'static str>,
        new_input: ChannelWrapper<usize, &'static str>,
        old_stop: bool,
        new_stop: bool,
    ) -> bool {
        &&& new.spec_on_exec().spec_count() == count_after_notify(old.spec_on_exec().spec_count())
        &&& same_apart_from_queue(old_input, new_input)
        &&& old_input is ConnectedReceiver ==> exists|n: nat|
            new.spec_on_msg().spec_count() == #[trigger] count_after_notifications(old.spec_on_msg().spec_count(), n)
        &&& !(old_input is ConnectedReceiver) ==> new.spec_on_msg() == old.spec_on_msg() && new_input == old_input
        &&& new_stop == old_stop
    }

    fn process(&mut self, input: &mut ChannelWrapper<usize, &'static str>, stop: &mut bool) {
        self.step(input);
    }
}

/// A sink that notifies `on_exec` on each run and `on_msg` for each message.
pub fn new(on_exec: Event, on_msg: Event) -> (res: EvtSink)
    ensures
        res.spec_on_exec() == on_exec,
        res.spec_on_msg() == on_msg,
{
    EvtSink { on_exec, on_msg }
}

} // verus!
