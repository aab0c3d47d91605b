//! The task that runs a scatter.

use crate::elem::connectable::Connectable;
use crate::elem::counter::{InputCounter, OutputCounter};
use crate::elem::identified_input::IdentifiedInput;
use crate::elem::scatter::Scatter;
use crate::{tx_count_of, 
    input_id_of, rx_count_of, spec_input_id_of, ChannelId, ChannelPosition, ChannelWrapper, Message,
    ReceiverChannelId, SenderChannelId, SenderName, Task,
};
use lossyq::spsc::Sender;
use crate::lossy::{read_rx_seqno, read_tx_seqno};
use vstd::prelude::*;

verus! {

/// A scatter together with its name, its input channel end and the sending
/// halves of its output queues.
pub struct ScatterWrap<S: Scatter> {
    name: String,
    state: Box<S>,
    input_rx: ChannelWrapper<S::InputValue, S::InputError>,
    output_tx_vec: Vec<Sender<Message<S::OutputValue, S::OutputError>>>,
}

impl<S: Scatter> ScatterWrap<S> {
    pub closed spec fn spec_name(&self) -> String {
        self.name
    }

    pub closed spec fn spec_state(&self) -> S {
        *self.state
    }

    pub closed spec fn spec_input(&self) -> ChannelWrapper<S::InputValue, S::InputError> {
        self.input_rx
    }

    pub closed spec fn spec_outputs(&self) -> Seq<Sender<Message<S::OutputValue, S::OutputError>>> {
        self.output_tx_vec@
    }

    pub fn new(
        name: String,
        state: Box<S>,
        input_rx: ChannelWrapper<S::InputValue, S::InputError>,
        output_tx_vec: Vec<Sender<Message<S::OutputValue, S::OutputError>>>,
    ) -> (res: Self)
        ensures
            res.spec_name() == name,
            res.spec_state() == *state,
            res.spec_input() == input_rx,
            res.spec_outputs() == output_tx_vec@,
    {
        ScatterWrap { name, state, input_rx, output_tx_vec }
    }
}

impl<S: Scatter> IdentifiedInput for ScatterWrap<S> {
    fn get_input_id(&self, ch_id: ReceiverChannelId) -> (res: Option<(ChannelId, SenderName)>)
        ensures
            res == (if ch_id.0 == 0 { spec_input_id_of(self.spec_input()) } else { None }),
    {
        if ch_id.0 == 0 {
            input_id_of(&self.input_rx)
        } else {
            None
        }
    }
}

impl<S: Scatter> InputCounter for ScatterWrap<S> {
    fn get_rx_count(&self, ch_id: ReceiverChannelId) -> (res: usize)
        ensures
            res <= usize::MAX / 16,
            self.spec_input() matches ChannelWrapper::ConnectedReceiver(_, rx, _) ==> (ch_id.0 == 0 ==> read_rx_seqno(rx, res)),
            (ch_id.0 != 0 || !(self.spec_input() is ConnectedReceiver)) ==> res == 0,
    {
        if ch_id.0 == 0 {
            rx_count_of(&self.input_rx)
        } else {
            0
        }
    }
}

impl<S: Scatter> OutputCounter for ScatterWrap<S> {
    fn get_tx_count(&self, ch_id: SenderChannelId) -> (res: usize)
        ensures
            res <= usize::MAX / 16,
            ch_id.0 < self.spec_outputs().len() ==> read_tx_seqno(self.spec_outputs()[ch_id.0 as int], res),
            ch_id.0 >= self.spec_outputs().len() ==> res == 0,
    {
        if ch_id.0 < self.output_tx_vec.len() {
            tx_count_of(&self.output_tx_vec[ch_id.0])
        } else {
            0
        }
    }
}

impl<S: Scatter> Connectable for ScatterWrap<S> {
    type InputValue = S::InputValue;
    type InputError = S::InputError;

    open spec fn spec_input_end(&self) -> ChannelWrapper<S::InputValue, S::InputError> {
        self.spec_input()
    }

    fn input(&mut self) -> (res: &mut ChannelWrapper<S::InputValue, S::InputError>) {
        &mut self.input_rx
    }
}

impl<S: Scatter> Task for ScatterWrap<S> {
    fn execute(&mut self, stop: &mut bool)
        ensures
            final(self).spec_name() == old(self).spec_name(),
            S::process_effect(
                old(self).spec_state(),
                final(self).spec_state(),
                old(self).spec_input(),
                final(self).spec_input(),
                old(self).spec_outputs(),
                final(self).spec_outputs(),
                *old(stop),
                *final(stop),
            ),
    {
        self.state.process(&mut self.input_rx, &mut self.output_tx_vec, stop);
    }

    fn name(&self) -> (res: &String)
        ensures
            *res == self.spec_name(),
    {
        &self.name
    }

    fn input_count(&self) -> (res: usize)
        ensures
            res == 1,
    {
        1
    }

    fn output_count(&self) -> (res: usize)
        ensures
            res == self.spec_outputs().len(),
    {
        self.output_tx_vec.len()
    }

    fn input_id(&self, ch_id: ReceiverChannelId) -> (res: Option<(ChannelId, SenderName)>)
        ensures
            res == (if ch_id.0 == 0 { spec_input_id_of(self.spec_input()) } else { None }),
    {
        self.get_input_id(ch_id)
    }

    fn input_channel_pos(&self, ch_id: ReceiverChannelId) -> (res: ChannelPosition)
        ensures
            res.0 <= usize::MAX / 16,
            self.spec_input() matches ChannelWrapper::ConnectedReceiver(_, rx, _) ==> (ch_id.0 == 0 ==> read_rx_seqno(rx, res.0)),
            (ch_id.0 != 0 || !(self.spec_input() is ConnectedReceiver)) ==> res.0 == 0,
    {
        ChannelPosition(self.get_rx_count(ch_id))
    }

    fn output_channel_pos(&self, ch_id: SenderChannelId) -> (res: ChannelPosition)
        ensures
            res.0 <= usize::MAX / 16,
            ch_id.0 < self.spec_outputs().len() ==> read_tx_seqno(self.spec_outputs()[ch_id.0 as int], res.0),
            ch_id.0 >= self.spec_outputs().len() ==> res.0 == 0,
    {
        ChannelPosition(self.get_tx_count(ch_id))
    }
}

} // verus!
