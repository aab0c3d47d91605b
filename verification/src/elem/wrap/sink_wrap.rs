//! The task that runs a sink.

use crate::elem::connectable::{Connectable};
use crate::elem::counter::InputCounter;
use crate::elem::identified_input::IdentifiedInput;
use crate::elem::sink::Sink;
use crate::{
    input_id_of, rx_count_of, spec_input_id_of, ChannelId, ChannelPosition, ChannelWrapper,
    ReceiverChannelId, SenderChannelId, SenderName, Task,
};
use crate::lossy::read_rx_seqno;
use vstd::prelude::*;

verus! {

/// A sink together with its name and its input channel end.
pub struct SinkWrap<S: Sink> {
    name: String,
    state: Box<S>,
    input_rx: ChannelWrapper<S::InputValue, S::InputError>,
}

impl<S: Sink> SinkWrap<S> {
    pub closed spec fn spec_name(&self) -> String {
        self.name
    }

    pub closed spec fn spec_state(&self) -> S {
        *self.state
    }

    pub closed spec fn spec_input(&self) -> ChannelWrapper<S::InputValue, S::InputError> {
        self.input_rx
    }

    pub fn new(name: String, state: Box<S>, input_rx: ChannelWrapper<S::InputValue, S::InputError>) -> (res: Self)
        ensures
            res.spec_name() == name,
            res.spec_state() == *state,
            res.spec_input() == input_rx,
    {
        SinkWrap { name, state, input_rx }
    }
}

impl<S: Sink> IdentifiedInput for SinkWrap<S> {
    fn get_input_id(&self, ch_id: ReceiverChannelId) -> (res: Option<(ChannelId, SenderName)>)
        ensures
            res == (if ch_id.0 == 0 { spec_input_id_of(self.spec_input()) } else { None }),
    {
        if ch_id.0 != 0 {
            None
        } else {
            input_id_of(&self.input_rx)
        }
    }
}

impl<S: Sink> InputCounter for SinkWrap<S> {
    fn get_rx_count(&self, ch_id: ReceiverChannelId) -> (res: usize)
        ensures
            res <= usize::MAX / 16,
            self.spec_input() matches ChannelWrapper::ConnectedReceiver(_, rx, _) ==> (ch_id.0 == 0 ==> read_rx_seqno(rx, res)),
            (ch_id.0 != 0 || !(self.spec_input() is ConnectedReceiver)) ==> res == 0,
    {
        if ch_id.0 == 0 {
            rx_count_of(&self.input_rx)
        } else {
            0
        }
    }
}

impl<S: Sink> Connectable for SinkWrap<S> {
    type InputValue = S::InputValue;
    type InputError = S::InputError;

    open spec fn spec_input_end(&self) -> ChannelWrapper<S::InputValue, S::InputError> {
        self.spec_input()
    }

    fn input(&mut self) -> (res: &mut ChannelWrapper<S::InputValue, S::InputError>) {
        &mut self.input_rx
    }
}

impl<S: Sink> Task for SinkWrap<S> {
    fn execute(&mut self, stop: &mut bool)
        ensures
            final(self).spec_name() == old(self).spec_name(),
            S::process_effect(
                old(self).spec_state(),
                final(self).spec_state(),
                old(self).spec_input(),
                final(self).spec_input(),
                *old(stop),
                *final(stop),
            ),
    {
        self.state.process(&mut self.input_rx, stop);
    }

    fn name(&self) -> (res: &String)
        ensures
            *res == self.spec_name(),
    {
        &self.name
    }

    fn input_count(&self) -> (res: usize)
        ensures
            res == 1,
    {
        1
    }

    fn output_count(&self) -> (res: usize)
        ensures
            res == 0,
    {
        0
    }

    fn input_id(&self, ch_id: ReceiverChannelId) -> (res: Option<(ChannelId, SenderName)>)
        ensures
            res == (if ch_id.0 == 0 { spec_input_id_of(self.spec_input()) } else { None }),
    {
        self.get_input_id(ch_id)
    }

    fn input_channel_pos(&self, ch_id: ReceiverChannelId) -> (res: ChannelPosition)
        ensures
            res.0 <= usize::MAX / 16,
            self.spec_input() matches ChannelWrapper::ConnectedReceiver(_, rx, _) ==> (ch_id.0 == 0 ==> read_rx_seqno(rx, res.0)),
            (ch_id.0 != 0 || !(self.spec_input() is ConnectedReceiver)) ==> res.0 == 0,
    {
        ChannelPosition(self.get_rx_count(ch_id))
    }

    fn output_channel_pos(&self, ch_id: SenderChannelId) -> (res: ChannelPosition)
        ensures
            res.0 <= usize::MAX / 16,
            res.0 == 0,
    {
        ChannelPosition(0)
    }
}

} // verus!
