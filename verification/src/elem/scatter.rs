//! Scatter elements: one input, a number of outputs of one type.

use crate::elem::wrap::scatter_wrap::ScatterWrap;
use crate::lossy::{halves_of_one_queue, lemma_new_channel_halves, new_channel, queue_size_fits};
use crate::{ChannelWrapper, Message, ReceiverChannelId, ReceiverName, SenderChannelId, SenderName};
use lossyq::spsc::Sender;
use vstd::prelude::*;

verus! {

/// The processing logic of a scatter, implemented by the user.
pub trait Scatter: Sized {
    type InputValue: Send;
    type InputError: Send;
    type OutputValue: Send;
    type OutputError: Send;

    /// What one run of `process` does, as the implementation states it (an implementation that states nothing
    /// promises nothing): the
    /// scatter goes from `old` to `new`, and each of its input end, output
    /// senders and stop flag from its `old_` to its `new_` value.
    open spec fn process_effect(
        old: Self,
        new: Self,
        old_input: ChannelWrapper<Self::InputValue, Self::InputError>,
        new_input: ChannelWrapper<Self::InputValue, Self::InputError>,
        old_outputs: Seq<Sender<Message<Self::OutputValue, Self::OutputError>>>,
        new_outputs: Seq<Sender<Message<Self::OutputValue, Self::OutputError>>>,
        old_stop: bool,
        new_stop: bool,
    ) -> bool {
        true
    }

    fn process(
        &mut self,
        input: &mut ChannelWrapper<Self::InputValue, Self::InputError>,
        output: &mut Vec<Sender<Message<Self::OutputValue, Self::OutputError>>>,
        stop: &mut bool,
    )
        ensures
            Self::process_effect(
                *old(self),
                *final(self),
                *old(input),
                *final(input),
                old(output)@,
                final(output)@,
                *old(stop),
                *final(stop),
            ),
    ;
}

/// A new scatter task named `name` running `scatter`, with its input
/// unconnected (receiver index 0) and `n_channels` new output queues of
/// `output_q_size` slots each; and the unconnected sender ends of those
/// queues (sender indices 0 to `n_channels - 1`). All ends are named after
/// the task.
pub fn new<S: Scatter>(name: &str, output_q_size: usize, scatter: Box<S>, n_channels: usize) -> (res: (
    Box<ScatterWrap<S>>,
    Vec<Box<ChannelWrapper<S::OutputValue, S::OutputError>>>,
))
    requires
        queue_size_fits::<Message<S::OutputValue, S::OutputError>>(output_q_size),
    ensures
        res.0.spec_name()@ == name@,
        res.0.spec_state() == *scatter,
        res.0.spec_input() matches ChannelWrapper::ReceiverNotConnected(id, receiver) && id == ReceiverChannelId(0)
            && receiver.0@ == name@,
        res.0.spec_outputs().len() == n_channels,
        res.1@.len() == n_channels,
        forall|i: int|
            0 <= i < n_channels ==> (*#[trigger] res.1@[i] matches ChannelWrapper::SenderNotConnected(id, rx, sender)
                && id == SenderChannelId(i as usize) && sender.0@ == name@
                && halves_of_one_queue(output_q_size, res.0.spec_outputs()[i], rx)),
{
    let name = name.to_string();
    let mut tx_vec: Vec<Sender<Message<S::OutputValue, S::OutputError>>> = Vec::new();
    let mut rx_vec: Vec<Box<ChannelWrapper<S::OutputValue, S::OutputError>>> = Vec::new();
    let mut i: usize = 0;
    while i < n_channels
        invariant
            i <= n_channels,
            queue_size_fits::<Message<S::OutputValue, S::OutputError>>(output_q_size),
            tx_vec@.len() == i,
            rx_vec@.len() == i,
            forall|j: int|
                0 <= j < i ==> (*#[trigger] rx_vec@[j] matches ChannelWrapper::SenderNotConnected(id, rx, sender)
                    && id == SenderChannelId(j as usize) && sender.0@ == name@
                    && halves_of_one_queue(output_q_size, tx_vec@[j], rx)),
        decreases n_channels - i,
    {
        let (output_tx, output_rx) = new_channel(output_q_size);
        proof {
            lemma_new_channel_halves(output_q_size, output_tx, output_rx);
        }
        tx_vec.push(output_tx);
        rx_vec.push(Box::new(ChannelWrapper::SenderNotConnected(SenderChannelId(i), output_rx, SenderName(name.clone()))));
        i = i + 1;
    }
    let input = ChannelWrapper::ReceiverNotConnected(ReceiverChannelId(0), ReceiverName(name.clone()));
    (Box::new(ScatterWrap::new(name, scatter, input, tx_vec)), rx_vec)
}

/// Each output of a new scatter feeds the sender end handed out with the
/// same index: for every `i` below `n_channels`, the sending half at index
/// `i` of the scatter's outputs and the receiving half held by the end with
/// sender index `i` are the two halves of one queue of `output_q_size`
/// slots, so what the scatter puts on output `i` is what a receiver
/// connected to end `i` reads.
pub proof fn scatter_output_feeds_end_of_same_index<S: Scatter>(
    name: &str,
    output_q_size: usize,
    scatter: Box<S>,
    n_channels: usize,
    res: (Box<ScatterWrap<S>>, Vec<Box<ChannelWrapper<S::OutputValue, S::OutputError>>>),
    i: int,
)
    requires
        call_ensures(new::<S>, (name, output_q_size, scatter, n_channels), res),
        0 <= i < n_channels,
    ensures
        res.0.spec_outputs().len() == n_channels,
        *res.1@[i] matches ChannelWrapper::SenderNotConnected(id, rx, _) && id == SenderChannelId(i as usize)
            && halves_of_one_queue(output_q_size, res.0.spec_outputs()[i], rx),
{
    assert(*res.1@[i] matches ChannelWrapper::SenderNotConnected(id, _, _) && id == SenderChannelId(i as usize));
}

} // verus!
