//! The task that runs a Y-split.

use crate::elem::connectable::Connectable;
use crate::elem::counter::{InputCounter, OutputCounter};
use crate::elem::identified_input::IdentifiedInput;
use crate::elem::ysplit::YSplit;
use crate::{tx_count_of, 
    input_id_of, rx_count_of, spec_input_id_of, ChannelId, ChannelPosition, ChannelWrapper, Message,
    ReceiverChannelId, SenderChannelId, SenderName, Task,
};
use lossyq::spsc::Sender;
use crate::lossy::{read_rx_seqno, read_tx_seqno};
use vstd::prelude::*;

verus! {

/// A Y-split together with its name, its input channel end and the sending
/// halves of its two output queues.
pub struct YSplitWrap<Y: YSplit> {
    name: String,
    state: Box<Y>,
    input_rx: ChannelWrapper<Y::InputValue, Y::InputError>,
    output_a_tx: Sender<Message<Y::OutputValueA, Y::OutputErrorA>>,
    output_b_tx: Sender<Message<Y::OutputValueB, Y::OutputErrorB>>,
}

impl<Y: YSplit> YSplitWrap<Y> {
    pub closed spec fn spec_name(&self) -> String {
        self.name
    }

    pub closed spec fn spec_state(&self) -> Y {
        *self.state
    }

    pub closed spec fn spec_input(&self) -> ChannelWrapper<Y::InputValue, Y::InputError> {
        self.input_rx
    }

    pub closed spec fn spec_output_a(&self) -> Sender<Message<Y::OutputValueA, Y::OutputErrorA>> {
        self.output_a_tx
    }

    pub closed spec fn spec_output_b(&self) -> Sender<Message<Y::OutputValueB, Y::OutputErrorB>> {
        self.output_b_tx
    }

    pub fn new(
        name: String,
        state: Box<Y>,
        input_rx: ChannelWrapper<Y::InputValue, Y::InputError>,
        output_a_tx: Sender<Message<Y::OutputValueA, Y::OutputErrorA>>,
        output_b_tx: Sender<Message<Y::OutputValueB, Y::OutputErrorB>>,
    ) -> (res: Self)
        ensures
            res.spec_name() == name,
            res.spec_state() == *state,
            res.spec_input() == input_rx,
            res.spec_output_a() == output_a_tx,
            res.spec_output_b() == output_b_tx,
    {
        YSplitWrap { name, state, input_rx, output_a_tx, output_b_tx }
    }
}

impl<Y: YSplit> IdentifiedInput for YSplitWrap<Y> {
    fn get_input_id(&self, ch_id: ReceiverChannelId) -> (res: Option<(ChannelId, SenderName)>)
        ensures
            res == (if ch_id.0 == 0 { spec_input_id_of(self.spec_input()) } else { None }),
    {
        if ch_id.0 != 0 {
            None
        } else {
            input_id_of(&self.input_rx)
        }
    }
}

impl<Y: YSplit> InputCounter for YSplitWrap<Y> {
    fn get_rx_count(&self, ch_id: ReceiverChannelId) -> (res: usize)
        ensures
            res <= usize::MAX / 16,
            self.spec_input() matches ChannelWrapper::ConnectedReceiver(_, rx, _) ==> (ch_id.0 == 0 ==> read_rx_seqno(rx, res)),
            (ch_id.0 != 0 || !(self.spec_input() is ConnectedReceiver)) ==> res == 0,
    {
        if ch_id.0 == 0 {
            rx_count_of(&self.input_rx)
        } else {
            0
        }
    }
}

impl<Y: YSplit> OutputCounter for YSplitWrap<Y> {
    fn get_tx_count(&self, ch_id: SenderChannelId) -> (res: usize)
        ensures
            res <= usize::MAX / 16,
            ch_id.0 == 0 ==> read_tx_seqno(self.spec_output_a(), res),
            ch_id.0 == 1 ==> read_tx_seqno(self.spec_output_b(), res),
            ch_id.0 > 1 ==> res == 0,
    {
        if ch_id.0 == 0 {
            tx_count_of(&self.output_a_tx)
        } else if ch_id.0 == 1 {
            tx_count_of(&self.output_b_tx)
        } else {
            0
        }
    }
}

impl<Y: YSplit> Connectable for YSplitWrap<Y> {
    type InputValue = Y::InputValue;
    type InputError = Y::InputError;

    open spec fn spec_input_end(&self) -> ChannelWrapper<Y::InputValue, Y::InputError> {
        self.spec_input()
    }

    fn input(&mut self) -> (res: &mut ChannelWrapper<Y::InputValue, Y::InputError>) {
        &mut self.input_rx
    }
}

impl<Y: YSplit> Task for YSplitWrap<Y> {
    fn execute(&mut self, stop: &mut bool)
        ensures
            final(self).spec_name() == old(self).spec_name(),
            Y::process_effect(
                old(self).spec_state(),
                final(self).spec_state(),
                old(self).spec_input(),
                final(self).spec_input(),
                old(self).spec_output_a(),
                final(self).spec_output_a(),
                old(self).spec_output_b(),
                final(self).spec_output_b(),
                *old(stop),
                *final(stop),
            ),
    {
        self.state.process(&mut self.input_rx, &mut self.output_a_tx, &mut self.output_b_tx, stop);
    }

    fn name(&self) -> (res: &String)
        ensures
            *res == self.spec_name(),
    {
        &self.name
    }

    fn input_count(&self) -> (res: usize)
        ensures
            res == 1,
    {
        1
    }

    fn output_count(&self) -> (res: usize)
        ensures
            res == 2,
    {
        2
    }

    fn input_id(&self, ch_id: ReceiverChannelId) -> (res: Option<(ChannelId, SenderName)>)
        ensures
            res == (if ch_id.0 == 0 { spec_input_id_of(self.spec_input()) } else { None }),
    {
        self.get_input_id(ch_id)
    }

    fn input_channel_pos(&self, ch_id: ReceiverChannelId) -> (res: ChannelPosition)
        ensures
            res.0 <= usize::MAX / 16,
            self.spec_input() matches ChannelWrapper::ConnectedReceiver(_, rx, _) ==> (ch_id.0 == 0 ==> read_rx_seqno(rx, res.0)),
            (ch_id.0 != 0 || !(self.spec_input() is ConnectedReceiver)) ==> res.0 == 0,
    {
        ChannelPosition(self.get_rx_count(ch_id))
    }

    fn output_channel_pos(&self, ch_id: SenderChannelId) -> (res: ChannelPosition)
        ensures
            res.0 <= usize::MAX / 16,
            ch_id.0 == 0 ==> read_tx_seqno(self.spec_output_a(), res.0),
            ch_id.0 == 1 ==> read_tx_seqno(self.spec_output_b(), res.0),
            ch_id.0 > 1 ==> res.0 == 0,
    {
        ChannelPosition(self.get_tx_count(ch_id))
    }
}

} // verus!
