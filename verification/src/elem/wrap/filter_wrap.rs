//! The task that runs a filter.

use crate::elem::connectable::Connectable;
use crate::elem::counter::{InputCounter, OutputCounter};
use crate::elem::filter::Filter;
use crate::elem::identified_input::IdentifiedInput;
use crate::{tx_count_of, 
    input_id_of, rx_count_of, spec_input_id_of, ChannelId, ChannelPosition, ChannelWrapper, Message,
    ReceiverChannelId, SenderChannelId, SenderName, Task,
};
use lossyq::spsc::Sender;
use crate::lossy::{read_rx_seqno, read_tx_seqno};
use vstd::prelude::*;

verus! {

/// A filter together with its name, its input channel end and the sending
/// half of its output queue.
pub struct FilterWrap<F: Filter> {
    name: String,
    state: Box<F>,
    input_rx: ChannelWrapper<F::InputValue, F::InputError>,
    output_tx: Sender<Message<F::OutputValue, F::OutputError>>,
}

impl<F: Filter> FilterWrap<F> {
    pub closed spec fn spec_name(&self) -> String {
        self.name
    }

    pub closed spec fn spec_state(&self) -> F {
        *self.state
    }

    pub closed spec fn spec_input(&self) -> ChannelWrapper<F::InputValue, F::InputError> {
        self.input_rx
    }

    pub closed spec fn spec_output(&self) -> Sender<Message<F::OutputValue, F::OutputError>> {
        self.output_tx
    }

    pub fn new(
        name: String,
        state: Box<F>,
        input_rx: ChannelWrapper<F::InputValue, F::InputError>,
        output_tx: Sender<Message<F::OutputValue, F::OutputError>>,
    ) -> (res: Self)
        ensures
            res.spec_name() == name,
            res.spec_state() == *state,
            res.spec_input() == input_rx,
            res.spec_output() == output_tx,
    {
        FilterWrap { name, state, input_rx, output_tx }
    }
}

impl<F: Filter> IdentifiedInput for FilterWrap<F> {
    fn get_input_id(&self, ch_id: ReceiverChannelId) -> (res: Option<(ChannelId, SenderName)>)
        ensures
            res == (if ch_id.0 == 0 { spec_input_id_of(self.spec_input()) } else { None }),
    {
        if ch_id.0 == 0 {
            input_id_of(&self.input_rx)
        } else {
            None
        }
    }
}

impl<F: Filter> InputCounter for FilterWrap<F> {
    fn get_rx_count(&self, ch_id: ReceiverChannelId) -> (res: usize)
        ensures
            res <= usize::MAX / 16,
            self.spec_input() matches ChannelWrapper::ConnectedReceiver(_, rx, _) ==> (ch_id.0 == 0 ==> read_rx_seqno(rx, res)),
            (ch_id.0 != 0 || !(self.spec_input() is ConnectedReceiver)) ==> res == 0,
    {
        if ch_id.0 == 0 {
            rx_count_of(&self.input_rx)
        } else {
            0
        }
    }
}

impl<F: Filter> OutputCounter for FilterWrap<F> {
    fn get_tx_count(&self, ch_id: SenderChannelId) -> (res: usize)
        ensures
            res <= usize::MAX / 16,
            ch_id.0 == 0 ==> read_tx_seqno(self.spec_output(), res),
            ch_id.0 != 0 ==> res == 0,
    {
        if ch_id.0 == 0 {
            tx_count_of(&self.output_tx)
        } else {
            0
        }
    }
}

impl<F: Filter> Connectable for FilterWrap<F> {
    type InputValue = F::InputValue;
    type InputError = F::InputError;

    open spec fn spec_input_end(&self) -> ChannelWrapper<F::InputValue, F::InputError> {
        self.spec_input()
    }

    fn input(&mut self) -> (res: &mut ChannelWrapper<F::InputValue, F::InputError>) {
        &mut self.input_rx
    }
}

impl<F: Filter> Task for FilterWrap<F> {
    fn execute(&mut self, stop: &mut bool)
        ensures
            final(self).spec_name() == old(self).spec_name(),
            F::process_effect(
                old(self).spec_state(),
                final(self).spec_state(),
                old(self).spec_input(),
                final(self).spec_input(),
                old(self).spec_output(),
                final(self).spec_output(),
                *old(stop),
                *final(stop),
            ),
    {
        self.state.process(&mut self.input_rx, &mut self.output_tx, stop);
    }

    fn name(&self) -> (res: &String)
        ensures
            *res == self.spec_name(),
    {
        &self.name
    }

    fn input_count(&self) -> (res: usize)
        ensures
            res == 1,
    {
        1
    }

    fn output_count(&self) -> (res: usize)
        ensures
            res == 1,
    {
        1
    }

    fn input_id(&self, ch_id: ReceiverChannelId) -> (res: Option<(ChannelId, SenderName)>)
        ensures
            res == (if ch_id.0 == 0 { spec_input_id_of(self.spec_input()) } else { None }),
    {
        self.get_input_id(ch_id)
    }

    fn input_channel_pos(&self, ch_id: ReceiverChannelId) -> (res: ChannelPosition)
        ensures
            res.0 <= usize::MAX / 16,
            self.spec_input() matches ChannelWrapper::ConnectedReceiver(_, rx, _) ==> (ch_id.0 == 0 ==> read_rx_seqno(rx, res.0)),
            (ch_id.0 != 0 || !(self.spec_input() is ConnectedReceiver)) ==> res.0 == 0,
    {
        ChannelPosition(self.get_rx_count(ch_id))
    }

    fn output_channel_pos(&self, ch_id: SenderChannelId) -> (res: ChannelPosition)
        ensures
            res.0 <= usize::MAX / 16,
            ch_id.0 == 0 ==> read_tx_seqno(self.spec_output(), res.0),
            ch_id.0 != 0 ==> res.0 == 0,
    {
        ChannelPosition(self.get_tx_count(ch_id))
    }
}

} // verus!
