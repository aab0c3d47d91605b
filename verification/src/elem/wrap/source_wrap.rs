//! The task that runs a source.

use crate::elem::counter::OutputCounter;
use crate::elem::source::Source;
use crate::{tx_count_of, ChannelId, ChannelPosition, Message, ReceiverChannelId, SenderChannelId, SenderName, Task};
use lossyq::spsc::Sender;
use crate::lossy::read_tx_seqno;
use vstd::prelude::*;

verus! {

/// A source together with its name and the sending half of its output queue.
pub struct SourceWrap<S: Source> {
    name: String,
    state: Box<S>,
    output_tx: Sender<Message<S::OutputValue, S::OutputError>>,
}

impl<S: Source> SourceWrap<S> {
    pub closed spec fn spec_name(&self) -> String {
        self.name
    }

    pub closed spec fn spec_state(&self) -> S {
        *self.state
    }

    pub closed spec fn spec_output(&self) -> Sender<Message<S::OutputValue, S::OutputError>> {
        self.output_tx
    }

    pub fn new(name: String, state: Box<S>, output_tx: Sender<Message<S::OutputValue, S::OutputError>>) -> (res: Self)
        ensures
            res.spec_name() == name,
            res.spec_state() == *state,
            res.spec_output() == output_tx,
    {
        SourceWrap { name, state, output_tx }
    }
}

impl<S: Source> OutputCounter for SourceWrap<S> {
    fn get_tx_count(&self, ch_id: SenderChannelId) -> (res: usize)
        ensures
            res <= usize::MAX / 16,
            ch_id.0 == 0 ==> read_tx_seqno(self.spec_output(), res),
            ch_id.0 != 0 ==> res == 0,
    {
        if ch_id.0 == 0 {
            tx_count_of(&self.output_tx)
        } else {
            0
        }
    }
}

impl<S: Source> Task for SourceWrap<S> {
    fn execute(&mut self, stop: &mut bool)
        ensures
            final(self).spec_name() == old(self).spec_name(),
            S::process_effect(
                old(self).spec_state(),
                final(self).spec_state(),
                old(self).spec_output(),
                final(self).spec_output(),
                *old(stop),
                *final(stop),
            ),
    {
        self.state.process(&mut self.output_tx, stop);
    }

    fn name(&self) -> (res: &String)
        ensures
            *res == self.spec_name(),
    {
        &self.name
    }

    fn input_count(&self) -> (res: usize)
        ensures
            res == 0,
    {
        0
    }

    fn output_count(&self) -> (res: usize)
        ensures
            res == 1,
    {
        1
    }

    fn input_id(&self, ch_id: ReceiverChannelId) -> (res: Option<(ChannelId, SenderName)>)
        ensures
            res is None,
    {
        None
    }

    fn input_channel_pos(&self, ch_id: ReceiverChannelId) -> (res: ChannelPosition)
        ensures
            res.0 <= usize::MAX / 16,
            res.0 == 0,
    {
        ChannelPosition(0)
    }

    fn output_channel_pos(&self, ch_id: SenderChannelId) -> (res: ChannelPosition)
        ensures
            res.0 <= usize::MAX / 16,
            ch_id.0 == 0 ==> read_tx_seqno(self.spec_output(), res.0),
            ch_id.0 != 0 ==> res.0 == 0,
    {
        ChannelPosition(self.get_tx_count(ch_id))
    }
}

} // verus!
