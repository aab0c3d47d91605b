//! The filter of the latency-measuring sample pipeline.

use crate::elem::filter::Filter;
use crate::lossy::{put_tick_message, read_rx_seqno, sent_tick};
use crate::sample::tick::Tick;
use crate::scheduler::event::{count_after_notifications, count_after_notify, Event};
use crate::{rx_count_of, same_apart_from_queue, take_messages, ChannelPosition, ChannelWrapper, Message, Schedule};
use lossyq::spsc::Sender;
use vstd::prelude::*;

verus! {

/// A filter that forwards every time stamp it receives, notifying `on_exec`
/// on each run and `on_msg` for each message, and asks to stop when its input
/// is not connected.
pub struct MeasuredPipelineFilter {
    on_exec: Event,
    on_msg: Event,
}

impl Filter for MeasuredPipelineFilter {
    type InputValue = Tick;
    type InputError = &'static str;
    type OutputValue = Tick;
    type OutputError = &'static str;

    open spec fn process_effect(
        old: Self,
        new: Self,
        old_input: ChannelWrapper<Tick, &'static str>,
        new_input: ChannelWrapper<Tick, &'static str>,
        old_output: Sender<Message<Tick, &'static str>>,
        new_output: Sender<Message<Tick, &'static str>>,
        old_stop: bool,
        new_stop: bool,
    ) -> bool {
        &&& new.spec_on_exec().spec_count() == count_after_notify(old.spec_on_exec().spec_count())
        &&& same_apart_from_queue(old_input, new_input)
        &&& old_input is ConnectedReceiver ==> new_stop == old_stop && exists|taken: Seq<Message<Tick, &'static str>>|
            #[trigger] sent_tick(new_output) == sent_tick(old_output) + taken && new.spec_on_msg().spec_count()
                == count_after_notifications(old.spec_on_msg().spec_count(), taken.len())
        &&& !(old_input is ConnectedReceiver) ==> new_stop && new.spec_on_msg() == old.spec_on_msg() && new_output
            == old_output && new_input == old_input
    }

    fn process(
        &mut self,
        input: &mut ChannelWrapper<Tick, &'static str>,
        output: &mut Sender<Message<Tick, &'static str>>,
        stop: &mut bool,
    ) {
        match self.step(input, output) {
            Schedule::Stop => {
                *stop = true;
            },
            _ => {},
        }
    }
}

impl MeasuredPipelineFilter {
    /// Notifies `on_msg` and hands the message to the output queue, once for
    /// each message in `msgs`, in order.
    pub fn forward_messages(&mut self, msgs: &Vec<Message<Tick, &'static str>>, output: &mut Sender<Message<Tick, &'static str>>)
        ensures
            final(self).spec_on_msg().spec_count() == count_after_notifications(
                old(self).spec_on_msg().spec_count(),
                msgs@.len(),
            ),
            final(self).spec_on_exec() == old(self).spec_on_exec(),
            sent_tick(*final(output)) == sent_tick(*old(output)) + msgs@,
    {
        let n = msgs.len();
        let mut i: usize = 0;
        while i < n
            invariant
                i <= n,
                n == msgs@.len(),
                self.on_exec == old(self).on_exec,
                self.on_msg.spec_count() == count_after_notifications(old(self).on_msg.spec_count(), i as nat),
                sent_tick(*output) == sent_tick(*old(output)) + msgs@.take(i as int),
            decreases n - i,
        {
            assert(msgs@.take(i + 1) == msgs@.take(i as int).push(msgs@[i as int]));
            self.on_msg.notify();
            put_tick_message(output, msgs[i]);
            i = i + 1;
        }
        assert(msgs@.take(n as int) == msgs@);
    }

    /// One run: notifies `on_exec`; on a connected input, takes the waiting
    /// messages, forwards them (see `forward_messages`) and asks to run again
    /// when the next message arrives on that channel (the position after the
    /// queue's current sequence number); on any other input, asks to stop and
    /// touches nothing else.
    pub fn step(
        &mut self,
        input: &mut ChannelWrapper<Tick, &'static str>,
        output: &mut Sender<Message<Tick, &'static str>>,
    ) -> (res: Schedule)
        ensures
            final(self).spec_on_exec().spec_count() == count_after_notify(old(self).spec_on_exec().spec_count()),
            same_apart_from_queue(*old(input), *final(input)),
            *final(input) matches ChannelWrapper::ConnectedReceiver(_, rx, _) ==> (res matches Schedule::OnMessage(
                _,
                pos,
            ) ==> pos.0 >= 1 && read_rx_seqno(rx, (pos.0 - 1) as usize)),
            *old(input) matches ChannelWrapper::ConnectedReceiver(cid, _, _) ==> (res matches Schedule::OnMessage(
                id,
                _,
            ) && id == cid) && exists|taken: Seq<Message<Tick, &'static str>>|
                #[trigger] sent_tick(*final(output)) == sent_tick(*old(output)) + taken
                    && final(self).spec_on_msg().spec_count() == count_after_notifications(
                    old(self).spec_on_msg().spec_count(),
                    taken.len(),
                ),
            !(*old(input) is ConnectedReceiver) ==> res == Schedule::Stop && final(self).spec_on_msg() == old(
                self,
            ).spec_on_msg() && *final(input) == *old(input) && *final(output) == *old(output),
    {
        self.on_exec.notify();
        match take_messages(input) {
            Some(msgs) => {
                self.forward_messages(&msgs, output);
                assert(sent_tick(*output) == sent_tick(*old(output)) + msgs@ && self.spec_on_msg().spec_count()
                    == count_after_notifications(old(self).spec_on_msg().spec_count(), msgs@.len()));
                assert(*input is ConnectedReceiver);
                let seqno = rx_count_of(input);
                match input {
                    ChannelWrapper::ConnectedReceiver(cid, _, _) => Schedule::OnMessage(*cid, ChannelPosition(1 + seqno)),
                    _ => Schedule::Stop,
                }
            },
            None => Schedule::Stop,
        }
    }

    pub closed spec fn spec_on_exec(&self) -> Event {
        self.on_exec
    }

    pub closed spec fn spec_on_msg(&self) -> Event {
        self.on_msg
    }

    pub fn new(on_exec: Event, on_msg: Event) -> (res: MeasuredPipelineFilter)
        ensures
            res.spec_on_exec() == on_exec,
            res.spec_on_msg() == on_msg,
    {
        MeasuredPipelineFilter { on_exec, on_msg }
    }

    /// How many times the filter has run and how many messages it has
    /// forwarded, as its events counted.
    pub fn counts(&self) -> (res: (u64, u64))
        ensures
            res == (self.spec_on_exec().spec_count(), self.spec_on_msg().spec_count()),
    {
        let (_r, exec_count) = self.on_exec.ready(0);
        let (_r, msg_count) = self.on_msg.ready(0);
        (exec_count, msg_count)
    }
}

/// A filter that forwards every time stamp it receives.
pub fn new(on_exec: Event, on_msg: Event) -> (res: MeasuredPipelineFilter)
    ensures
        res.spec_on_exec() == on_exec,
        res.spec_on_msg() == on_msg,
{
    MeasuredPipelineFilter::new(on_exec, on_msg)
}

} // verus!
