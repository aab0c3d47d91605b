//! The sink of the externally triggered sample pipeline.

use crate::elem::sink::Sink;
use crate::scheduler::event::{count_after_notifications, count_after_notify, Event};
use crate::{rx_count_of, same_apart_from_queue, take_messages, ChannelPosition, ChannelWrapper, Message, Schedule};
use crate::lossy::read_rx_seqno;
use vstd::prelude::*;

verus! {

/// A sink that notifies `on_exec` on each run and `on_msg` for each message,
/// and asks to stop when its input is not connected.
pub struct ExtPipelineSink {
    on_exec: Event,
    on_msg: Event,
}

impl Sink for ExtPipelineSink {
    type InputValue = usize;
    type InputError = &'static str;

    open spec fn process_effect(
        old: Self,
        new: Self,
        old_input: ChannelWrapper<usize, &'static str>,
        new_input: ChannelWrapper<usize, &'static str>,
        old_stop: bool,
        new_stop: bool,
    ) -> bool {
        &&& new.spec_on_exec().spec_count() == count_after_notify(old.spec_on_exec().spec_count())
        &&& same_apart_from_queue(old_input, new_input)
        &&& old_input is ConnectedReceiver ==> new_stop == old_stop && exists|n: nat|
            new.spec_on_msg().spec_count() == #[trigger] count_after_notifications(old.spec_on_msg().spec_count(), n)
        &&& !(old_input is ConnectedReceiver) ==> new_stop && new.spec_on_msg() == old.spec_on_msg() && new_input
            == old_input
    }

    fn process(&mut self, input: &mut ChannelWrapper<usize, &'static str>, stop: &mut bool) {
        match self.step(input) {
            Schedule::Stop => {
                *stop = true;
            },
            _ => {},
        }
    }
}

impl ExtPipelineSink {
    pub closed spec fn spec_on_exec(&self) -> Event {
        self.on_exec
    }

    pub closed spec fn spec_on_msg(&self) -> Event {
        self.on_msg
    }

    pub fn new(on_exec: Event, on_msg: Event) -> (res: ExtPipelineSink)
        ensures
            res.spec_on_exec() == on_exec,
            res.spec_on_msg() == on_msg,
    {
        ExtPipelineSink { on_exec, on_msg }
    }

    /// Notifies `on_msg` once for each message in `msgs`.
    pub fn count_messages(&mut self, msgs: &Vec<Message<usize, &'static str>>)
        ensures
            final(self).spec_on_msg().spec_count() == count_after_notifications(
                old(self).spec_on_msg().spec_count(),
                msgs@.len(),
            ),
            final(self).spec_on_exec() == old(self).spec_on_exec(),
    {
        self.on_msg.notify_times(msgs.len());
    }

    /// One run: notifies `on_exec`; on a connected input, takes the waiting
    /// messages, notifies `on_msg` once per message and asks to run again
    /// when the next message arrives on that channel (the position after the
    /// queue's current sequence number); on any other input, asks to stop and
    /// touches nothing else.
    pub fn step(&mut self, input: &mut ChannelWrapper<usize, &'static str>) -> (res: Schedule)
        ensures
            final(self).spec_on_exec().spec_count() == count_after_notify(old(self).spec_on_exec().spec_count()),
            same_apart_from_queue(*old(input), *final(input)),
            *final(input) matches ChannelWrapper::ConnectedReceiver(_, rx, _) ==> (res matches Schedule::OnMessage(
                _,
                pos,
            ) ==> pos.0 >= 1 && read_rx_seqno(rx, (pos.0 - 1) as usize)),
            *old(input) matches ChannelWrapper::ConnectedReceiver(cid, _, _) ==> (res matches Schedule::OnMessage(
                id,
                _,
            ) && id == cid) && exists|n: nat|
                final(self).spec_on_msg().spec_count() == #[trigger] count_after_notifications(
                    old(self).spec_on_msg().spec_count(),
                    n,
                ),
            !(*old(input) is ConnectedReceiver) ==> res == Schedule::Stop && final(self).spec_on_msg() == old(
                self,
            ).spec_on_msg() && *final(input) == *old(input),
    {
        self.on_exec.notify();
        match take_messages(input) {
            Some(msgs) => {
                self.count_messages(&msgs);
                let ghost count = msgs@.len();
                assert(self.spec_on_msg().spec_count() == count_after_notifications(
                    old(self).spec_on_msg().spec_count(),
                    count,
                ));
                assert(exists|n: nat|
                    self.spec_on_msg().spec_count() == #[trigger] count_after_notifications(
                        old(self).spec_on_msg().spec_count(),
                        n,
                    ));
                assert(*input is ConnectedReceiver);
                let seqno = rx_count_of(input);
                match input {
                    ChannelWrapper::ConnectedReceiver(cid, _, _) => Schedule::OnMessage(*cid, ChannelPosition(1 + seqno)),
                    _ => Schedule::Stop,
                }
            },
            None => Schedule::Stop,
        }
    }
}

/// A sink that notifies `on_exec` on each run and `on_msg` for each message.
pub fn new(on_exec: Event, on_msg: Event) -> (res: ExtPipelineSink)
    ensures
        res.spec_on_exec() == on_exec,
        res.spec_on_msg() == on_msg,
{
    ExtPipelineSink::new(on_exec, on_msg)
}

} // verus!
