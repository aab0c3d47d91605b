//! The task that runs a Y-merge.

use crate::elem::connectable::ConnectableY;
use crate::elem::counter::{InputCounter, OutputCounter};
use crate::elem::identified_input::IdentifiedInput;
use crate::elem::ymerge::YMerge;
use crate::{tx_count_of, 
    input_id_of, rx_count_of, spec_input_id_of, ChannelId, ChannelPosition, ChannelWrapper, Message,
    ReceiverChannelId, SenderChannelId, SenderName, Task,
};
use lossyq::spsc::Sender;
use crate::lossy::{read_rx_seqno, read_tx_seqno};
use vstd::prelude::*;

verus! {

/// A Y-merge together with its name, its two input channel ends and the
/// sending half of its output queue.
pub struct YMergeWrap<Y: YMerge> {
    name: String,
    state: Box<Y>,
    input_a_rx: ChannelWrapper<Y::InputValueA, Y::InputErrorA>,
    input_b_rx: ChannelWrapper<Y::InputValueB, Y::InputErrorB>,
    output_tx: Sender<Message<Y::OutputValue, Y::OutputError>>,
}

impl<Y: YMerge> YMergeWrap<Y> {
    pub closed spec fn spec_name(&self) -> String {
        self.name
    }

    pub closed spec fn spec_state(&self) -> Y {
        *self.state
    }

    pub closed spec fn spec_input_a(&self) -> ChannelWrapper<Y::InputValueA, Y::InputErrorA> {
        self.input_a_rx
    }

    pub closed spec fn spec_input_b(&self) -> ChannelWrapper<Y::InputValueB, Y::InputErrorB> {
        self.input_b_rx
    }

    pub closed spec fn spec_output(&self) -> Sender<Message<Y::OutputValue, Y::OutputError>> {
        self.output_tx
    }

    pub fn new(
        name: String,
        state: Box<Y>,
        input_a_rx: ChannelWrapper<Y::InputValueA, Y::InputErrorA>,
        input_b_rx: ChannelWrapper<Y::InputValueB, Y::InputErrorB>,
        output_tx: Sender<Message<Y::OutputValue, Y::OutputError>>,
    ) -> (res: Self)
        ensures
            res.spec_name() == name,
            res.spec_state() == *state,
            res.spec_input_a() == input_a_rx,
            res.spec_input_b() == input_b_rx,
            res.spec_output() == output_tx,
    {
        YMergeWrap { name, state, input_a_rx, input_b_rx, output_tx }
    }
}

impl<Y: YMerge> IdentifiedInput for YMergeWrap<Y> {
    fn get_input_id(&self, ch_id: ReceiverChannelId) -> (res: Option<(ChannelId, SenderName)>)
        ensures
            res == (if ch_id.0 == 0 {
                spec_input_id_of(self.spec_input_a())
            } else if ch_id.0 == 1 {
                spec_input_id_of(self.spec_input_b())
            } else {
                None
            }),
    {
        if ch_id.0 == 0 {
            input_id_of(&self.input_a_rx)
        } else if ch_id.0 == 1 {
            input_id_of(&self.input_b_rx)
        } else {
            None
        }
    }
}

impl<Y: YMerge> InputCounter for YMergeWrap<Y> {
    fn get_rx_count(&self, ch_id: ReceiverChannelId) -> (res: usize)
        ensures
            res <= usize::MAX / 16,
            self.spec_input_a() matches ChannelWrapper::ConnectedReceiver(_, rx, _) ==> (ch_id.0 == 0 ==> read_rx_seqno(rx, res)),
            self.spec_input_b() matches ChannelWrapper::ConnectedReceiver(_, rx, _) ==> (ch_id.0 == 1 ==> read_rx_seqno(rx, res)),
            ch_id.0 > 1 ==> res == 0,
            (ch_id.0 == 0 && !(self.spec_input_a() is ConnectedReceiver)) ==> res == 0,
            (ch_id.0 == 1 && !(self.spec_input_b() is ConnectedReceiver)) ==> res == 0,
    {
        if ch_id.0 == 0 {
            rx_count_of(&self.input_a_rx)
        } else if ch_id.0 == 1 {
            rx_count_of(&self.input_b_rx)
        } else {
            0
        }
    }
}

impl<Y: YMerge> OutputCounter for YMergeWrap<Y> {
    fn get_tx_count(&self, ch_id: SenderChannelId) -> (res: usize)
        ensures
            res <= usize::MAX / 16,
            ch_id.0 == 0 ==> read_tx_seqno(self.spec_output(), res),
            ch_id.0 != 0 ==> res == 0,
    {
        if ch_id.0 == 0 {
            tx_count_of(&self.output_tx)
        } else {
            0
        }
    }
}

impl<Y: YMerge> ConnectableY for YMergeWrap<Y> {
    type InputValueA = Y::InputValueA;
    type InputErrorA = Y::InputErrorA;
    type InputValueB = Y::InputValueB;
    type InputErrorB = Y::InputErrorB;

    open spec fn spec_input_a_end(&self) -> ChannelWrapper<Y::InputValueA, Y::InputErrorA> {
        self.spec_input_a()
    }

    open spec fn spec_input_b_end(&self) -> ChannelWrapper<Y::InputValueB, Y::InputErrorB> {
        self.spec_input_b()
    }

    fn input_a(&mut self) -> (res: &mut ChannelWrapper<Y::InputValueA, Y::InputErrorA>) {
        &mut self.input_a_rx
    }

    fn input_b(&mut self) -> (res: &mut ChannelWrapper<Y::InputValueB, Y::InputErrorB>) {
        &mut self.input_b_rx
    }
}

impl<Y: YMerge> Task for YMergeWrap<Y> {
    fn execute(&mut self, stop: &mut bool)
        ensures
            final(self).spec_name() == old(self).spec_name(),
            Y::process_effect(
                old(self).spec_state(),
                final(self).spec_state(),
                old(self).spec_input_a(),
                final(self).spec_input_a(),
                old(self).spec_input_b(),
                final(self).spec_input_b(),
                old(self).spec_output(),
                final(self).spec_output(),
                *old(stop),
                *final(stop),
            ),
    {
        self.state.process(&mut self.input_a_rx, &mut self.input_b_rx, &mut self.output_tx, stop);
    }

    fn name(&self) -> (res: &String)
        ensures
            *res == self.spec_name(),
    {
        &self.name
    }

    fn input_count(&self) -> (res: usize)
        ensures
            res == 2,
    {
        2
    }

    fn output_count(&self) -> (res: usize)
        ensures
            res == 1,
    {
        1
    }

    fn input_id(&self, ch_id: ReceiverChannelId) -> (res: Option<(ChannelId, SenderName)>)
        ensures
            res == (if ch_id.0 == 0 {
                spec_input_id_of(self.spec_input_a())
            } else if ch_id.0 == 1 {
                spec_input_id_of(self.spec_input_b())
            } else {
                None
            }),
    {
        self.get_input_id(ch_id)
    }

    fn input_channel_pos(&self, ch_id: ReceiverChannelId) -> (res: ChannelPosition)
        ensures
            res.0 <= usize::MAX / 16,
            self.spec_input_a() matches ChannelWrapper::ConnectedReceiver(_, rx, _) ==> (ch_id.0 == 0 ==> read_rx_seqno(rx, res.0)),
            self.spec_input_b() matches ChannelWrapper::ConnectedReceiver(_, rx, _) ==> (ch_id.0 == 1 ==> read_rx_seqno(rx, res.0)),
            ch_id.0 > 1 ==> res.0 == 0,
            (ch_id.0 == 0 && !(self.spec_input_a() is ConnectedReceiver)) ==> res.0 == 0,
            (ch_id.0 == 1 && !(self.spec_input_b() is ConnectedReceiver)) ==> res.0 == 0,
    {
        ChannelPosition(self.get_rx_count(ch_id))
    }

    fn output_channel_pos(&self, ch_id: SenderChannelId) -> (res: ChannelPosition)
        ensures
            res.0 <= usize::MAX / 16,
            ch_id.0 == 0 ==> read_tx_seqno(self.spec_output(), res.0),
            ch_id.0 != 0 ==> res.0 == 0,
    {
        ChannelPosition(self.get_tx_count(ch_id))
    }
}

} // verus!
