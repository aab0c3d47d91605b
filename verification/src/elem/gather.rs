//! Gather elements: a number of inputs of one type, one output.

use crate::elem::wrap::gather_wrap::GatherWrap;
use crate::lossy::{halves_of_one_queue, lemma_new_channel_halves, new_channel, queue_size_fits};
use crate::{ChannelWrapper, Message, ReceiverChannelId, ReceiverName, SenderChannelId, SenderName};
use lossyq::spsc::Sender;
use vstd::prelude::*;

verus! {

/// The processing logic of a gather, implemented by the user.
pub trait Gather: Sized {
    type InputValue: Send;
    type InputError: Send;
    type OutputValue: Send;
    type OutputError: Send;

    /// What one run of `process` does, as the implementation states it (an implementation that states nothing
    /// promises nothing): the
    /// gather goes from `old` to `new`, and each of its input ends, output
    /// sender and stop flag from its `old_` to its `new_` value.
    open spec fn process_effect(
        old: Self,
        new: Self,
        old_inputs: Seq<ChannelWrapper<Self::InputValue, Self::InputError>>,
        new_inputs: Seq<ChannelWrapper<Self::InputValue, Self::InputError>>,
        old_output: Sender<Message<Self::OutputValue, Self::OutputError>>,
        new_output: Sender<Message<Self::OutputValue, Self::OutputError>>,
        old_stop: bool,
        new_stop: bool,
    ) -> bool {
        true
    }

    fn process(
        &mut self,
        input: &mut Vec<ChannelWrapper<Self::InputValue, Self::InputError>>,
        output: &mut Sender<Message<Self::OutputValue, Self::OutputError>>,
        stop: &mut bool,
    )
        ensures
            Self::process_effect(
                *old(self),
                *final(self),
                old(input)@,
                final(input)@,
                *old(output),
                *final(output),
                *old(stop),
                *final(stop),
            ),
    ;
}

/// A new gather task named `name` running `gather`, with `n_channels`
/// unconnected inputs (receiver indices 0 to `n_channels - 1`) and its output
/// a new queue of `output_q_size` slots; and the unconnected sender end of
/// that queue (sender index 0). All ends are named after the task.
pub fn new<G: Gather>(name: &str, output_q_size: usize, gather: Box<G>, n_channels: usize) -> (res: (
    Box<GatherWrap<G>>,
    Box<ChannelWrapper<G::OutputValue, G::OutputError>>,
))
    requires
        queue_size_fits::<Message<G::OutputValue, G::OutputError>>(output_q_size),
    ensures
        res.0.spec_name()@ == name@,
        res.0.spec_state() == *gather,
        res.0.spec_inputs().len() == n_channels,
        forall|i: int|
            0 <= i < n_channels ==> (#[trigger] res.0.spec_inputs()[i] matches ChannelWrapper::ReceiverNotConnected(
                id,
                receiver,
            ) && id == ReceiverChannelId(i as usize) && receiver.0@ == name@),
        *res.1 matches ChannelWrapper::SenderNotConnected(id, rx, sender) && id == SenderChannelId(0)
            && sender.0@ == name@ && halves_of_one_queue(output_q_size, res.0.spec_output(), rx),
{
    let (output_tx, output_rx) = new_channel(output_q_size);
    proof {
        lemma_new_channel_halves(output_q_size, output_tx, output_rx);
    }
    let name = name.to_string();
    let mut inputs: Vec<ChannelWrapper<G::InputValue, G::InputError>> = Vec::new();
    let mut i: usize = 0;
    while i < n_channels
        invariant
            i <= n_channels,
            inputs@.len() == i,
            forall|j: int|
                0 <= j < i ==> (#[trigger] inputs@[j] matches ChannelWrapper::ReceiverNotConnected(id, receiver)
                    && id == ReceiverChannelId(j as usize) && receiver.0@ == name@),
        decreases n_channels - i,
    {
        inputs.push(ChannelWrapper::ReceiverNotConnected(ReceiverChannelId(i), ReceiverName(name.clone())));
        i = i + 1;
    }
    let out = ChannelWrapper::SenderNotConnected(SenderChannelId(0), output_rx, SenderName(name.clone()));
    (Box::new(GatherWrap::new(name, gather, inputs, output_tx)), Box::new(out))
}

/// The output of a new gather feeds the sender end it hands out: the
/// gather's output sender and the receiving half held by the returned end
/// (sender index 0) are the two halves of one queue of `output_q_size`
/// slots, so every message the gather puts on its output is readable by the
/// receiver connected to that end.
pub proof fn gather_output_feeds_its_end<G: Gather>(
    name: &str,
    output_q_size: usize,
    gather: Box<G>,
    n_channels: usize,
    res: (Box<GatherWrap<G>>, Box<ChannelWrapper<G::OutputValue, G::OutputError>>),
)
    requires
        call_ensures(new::<G>, (name, output_q_size, gather, n_channels), res),
    ensures
        *res.1 matches ChannelWrapper::SenderNotConnected(id, rx, _) && id == SenderChannelId(0)
            && halves_of_one_queue(output_q_size, res.0.spec_output(), rx),
{
}

} // verus!
