//! The task that runs a gather.

use crate::elem::connectable::ConnectableN;
use crate::elem::counter::{InputCounter, OutputCounter};
use crate::elem::gather::Gather;
use crate::elem::identified_input::IdentifiedInput;
use crate::{tx_count_of, 
    input_id_of, rx_count_of, spec_input_id_of, ChannelId, ChannelPosition, ChannelWrapper, Message,
    ReceiverChannelId, SenderChannelId, SenderName, Task,
};
use lossyq::spsc::Sender;
use crate::lossy::{read_rx_seqno, read_tx_seqno};
use vstd::prelude::*;

verus! {

/// A gather together with its name, its input channel ends and the sending
/// half of its output queue.
pub struct GatherWrap<G: Gather> {
    name: String,
    state: Box<G>,
    input_rx_vec: Vec<ChannelWrapper<G::InputValue, G::InputError>>,
    output_tx: Sender<Message<G::OutputValue, G::OutputError>>,
}

impl<G: Gather> GatherWrap<G> {
    pub closed spec fn spec_name(&self) -> String {
        self.name
    }

    pub closed spec fn spec_state(&self) -> G {
        *self.state
    }

    pub closed spec fn spec_inputs(&self) -> Seq<ChannelWrapper<G::InputValue, G::InputError>> {
        self.input_rx_vec@
    }

    pub closed spec fn spec_output(&self) -> Sender<Message<G::OutputValue, G::OutputError>> {
        self.output_tx
    }

    pub fn new(
        name: String,
        state: Box<G>,
        input_rx_vec: Vec<ChannelWrapper<G::InputValue, G::InputError>>,
        output_tx: Sender<Message<G::OutputValue, G::OutputError>>,
    ) -> (res: Self)
        ensures
            res.spec_name() == name,
            res.spec_state() == *state,
            res.spec_inputs() == input_rx_vec@,
            res.spec_output() == output_tx,
    {
        GatherWrap { name, state, input_rx_vec, output_tx }
    }
}

impl<G: Gather> IdentifiedInput for GatherWrap<G> {
    fn get_input_id(&self, ch_id: ReceiverChannelId) -> (res: Option<(ChannelId, SenderName)>)
        ensures
            res == (if ch_id.0 < self.spec_inputs().len() {
                spec_input_id_of(self.spec_inputs()[ch_id.0 as int])
            } else {
                None
            }),
    {
        if ch_id.0 < self.input_rx_vec.len() {
            input_id_of(&self.input_rx_vec[ch_id.0])
        } else {
            None
        }
    }
}

impl<G: Gather> InputCounter for GatherWrap<G> {
    fn get_rx_count(&self, ch_id: ReceiverChannelId) -> (res: usize)
        ensures
            res <= usize::MAX / 16,
            ch_id.0 < self.spec_inputs().len() ==> (self.spec_inputs()[ch_id.0 as int] matches ChannelWrapper::ConnectedReceiver(_, rx, _) ==> read_rx_seqno(rx, res)),
            (ch_id.0 >= self.spec_inputs().len() || !(self.spec_inputs()[ch_id.0 as int] is ConnectedReceiver))
                ==> res == 0,
    {
        if ch_id.0 < self.input_rx_vec.len() {
            rx_count_of(&self.input_rx_vec[ch_id.0])
        } else {
            0
        }
    }
}

impl<G: Gather> OutputCounter for GatherWrap<G> {
    fn get_tx_count(&self, ch_id: SenderChannelId) -> (res: usize)
        ensures
            res <= usize::MAX / 16,
            ch_id.0 == 0 ==> read_tx_seqno(self.spec_output(), res),
            ch_id.0 != 0 ==> res == 0,
    {
        if ch_id.0 == 0 {
            tx_count_of(&self.output_tx)
        } else {
            0
        }
    }
}

impl<G: Gather> ConnectableN for GatherWrap<G> {
    type InputValue = G::InputValue;
    type InputError = G::InputError;

    open spec fn spec_input_count(&self) -> nat {
        self.spec_inputs().len()
    }

    open spec fn spec_input_end(&self, n: int) -> ChannelWrapper<G::InputValue, G::InputError> {
        self.spec_inputs()[n]
    }

    fn input(&mut self, n: ReceiverChannelId) -> (res: &mut ChannelWrapper<G::InputValue, G::InputError>) {
        &mut self.input_rx_vec[n.0]
    }
}

impl<G: Gather> Task for GatherWrap<G> {
    fn execute(&mut self, stop: &mut bool)
        ensures
            final(self).spec_name() == old(self).spec_name(),
            G::process_effect(
                old(self).spec_state(),
                final(self).spec_state(),
                old(self).spec_inputs(),
                final(self).spec_inputs(),
                old(self).spec_output(),
                final(self).spec_output(),
                *old(stop),
                *final(stop),
            ),
    {
        self.state.process(&mut self.input_rx_vec, &mut self.output_tx, stop);
    }

    fn name(&self) -> (res: &String)
        ensures
            *res == self.spec_name(),
    {
        &self.name
    }

    fn input_count(&self) -> (res: usize)
        ensures
            res == self.spec_inputs().len(),
    {
        self.input_rx_vec.len()
    }

    fn output_count(&self) -> (res: usize)
        ensures
            res == 1,
    {
        1
    }

    fn input_id(&self, ch_id: ReceiverChannelId) -> (res: Option<(ChannelId, SenderName)>)
        ensures
            res == (if ch_id.0 < self.spec_inputs().len() {
                spec_input_id_of(self.spec_inputs()[ch_id.0 as int])
            } else {
                None
            }),
    {
        self.get_input_id(ch_id)
    }

    fn input_channel_pos(&self, ch_id: ReceiverChannelId) -> (res: ChannelPosition)
        ensures
            res.0 <= usize::MAX / 16,
            ch_id.0 < self.spec_inputs().len() ==> (self.spec_inputs()[ch_id.0 as int] matches ChannelWrapper::ConnectedReceiver(_, rx, _) ==> read_rx_seqno(rx, res.0)),
            (ch_id.0 >= self.spec_inputs().len() || !(self.spec_inputs()[ch_id.0 as int] is ConnectedReceiver))
                ==> res.0 == 0,
    {
        ChannelPosition(self.get_rx_count(ch_id))
    }

    fn output_channel_pos(&self, ch_id: SenderChannelId) -> (res: ChannelPosition)
        ensures
            res.0 <= usize::MAX / 16,
            ch_id.0 == 0 ==> read_tx_seqno(self.spec_output(), res.0),
            ch_id.0 != 0 ==> res.0 == 0,
    {
        ChannelPosition(self.get_tx_count(ch_id))
    }
}

/// A gather reports for each connected input how far that input's own queue
/// has got: for a connected input `n`, `get_rx_count(n)` and
/// `input_channel_pos(n)` are sequence numbers read from the receiving half
/// held by input `n` itself; for an unconnected or missing input both are 0.
pub proof fn gather_counts_each_input_on_its_own_queue<G: Gather>(
    w: GatherWrap<G>,
    ch_id: ReceiverChannelId,
    count: usize,
    pos: ChannelPosition,
)
    requires
        call_ensures(<GatherWrap<G> as InputCounter>::get_rx_count, (&w, ch_id), count),
        call_ensures(<GatherWrap<G> as Task>::input_channel_pos, (&w, ch_id), pos),
    ensures
        ch_id.0 < w.spec_inputs().len() ==> (w.spec_inputs()[ch_id.0 as int] matches ChannelWrapper::ConnectedReceiver(
            _,
            rx,
            _,
        ) ==> read_rx_seqno(rx, count) && read_rx_seqno(rx, pos.0)),
        (ch_id.0 >= w.spec_inputs().len() || !(w.spec_inputs()[ch_id.0 as int] is ConnectedReceiver)) ==> count == 0
            && pos.0 == 0,
{
}

/// A gather reports for its output how far its own output queue has got:
/// `get_tx_count(0)` and `output_channel_pos(0)` are sequence numbers read
/// from the gather's output sender, the count of messages put through it;
/// any other output index gives 0.
pub proof fn gather_counts_its_output_on_its_own_queue<G: Gather>(
    w: GatherWrap<G>,
    ch_id: SenderChannelId,
    count: usize,
    pos: ChannelPosition,
)
    requires
        call_ensures(<GatherWrap<G> as OutputCounter>::get_tx_count, (&w, ch_id), count),
        call_ensures(<GatherWrap<G> as Task>::output_channel_pos, (&w, ch_id), pos),
    ensures
        ch_id.0 == 0 ==> read_tx_seqno(w.spec_output(), count) && read_tx_seqno(w.spec_output(), pos.0),
        ch_id.0 != 0 ==> count == 0 && pos.0 == 0,
{
}

} // verus!
