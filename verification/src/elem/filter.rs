//! Filter elements: one input, one output.

use crate::elem::wrap::filter_wrap::FilterWrap;
use crate::lossy::{halves_of_one_queue, lemma_new_channel_halves, new_channel, queue_size_fits};
use crate::{ChannelWrapper, Message, ReceiverChannelId, ReceiverName, SenderChannelId, SenderName};
use lossyq::spsc::Sender;
use vstd::prelude::*;

verus! {

/// The processing logic of a filter, implemented by the user.
pub trait Filter: Sized {
    type InputValue: Send;
    type InputError: Send;
    type OutputValue: Send;
    type OutputError: Send;

    /// What one run of `process` does, as the implementation states it (an implementation that states nothing
    /// promises nothing): the
    /// filter goes from `old` to `new`, its input end from `old_input` to
    /// `new_input`, the sending half of its output queue from `old_output` to
    /// `new_output`, and the stop flag from `old_stop` to `new_stop`.
    open spec fn process_effect(
        old: Self,
        new: Self,
        old_input: ChannelWrapper<Self::InputValue, Self::InputError>,
        new_input: ChannelWrapper<Self::InputValue, Self::InputError>,
        old_output: Sender<Message<Self::OutputValue, Self::OutputError>>,
        new_output: Sender<Message<Self::OutputValue, Self::OutputError>>,
        old_stop: bool,
        new_stop: bool,
    ) -> bool {
        true
    }

    fn process(
        &mut self,
        input: &mut ChannelWrapper<Self::InputValue, Self::InputError>,
        output: &mut Sender<Message<Self::OutputValue, Self::OutputError>>,
        stop: &mut bool,
    )
        ensures
            Self::process_effect(
                *old(self),
                *final(self),
                *old(input),
                *final(input),
                *old(output),
                *final(output),
                *old(stop),
                *final(stop),
            ),
    ;
}

/// A new filter task named `name` running `filter`, with its input
/// unconnected (receiver index 0) and its output a new queue of
/// `output_q_size` slots; and the unconnected sender end of that queue
/// (sender index 0). Both ends are named after the task.
pub fn new<F: Filter>(name: &str, output_q_size: usize, filter: Box<F>) -> (res: (
    Box<FilterWrap<F>>,
    Box<ChannelWrapper<F::OutputValue, F::OutputError>>,
))
    requires
        queue_size_fits::<Message<F::OutputValue, F::OutputError>>(output_q_size),
    ensures
        res.0.spec_name()@ == name@,
        res.0.spec_state() == *filter,
        res.0.spec_input() matches ChannelWrapper::ReceiverNotConnected(id, receiver) && id == ReceiverChannelId(0)
            && receiver.0@ == name@,
        *res.1 matches ChannelWrapper::SenderNotConnected(id, rx, sender) && id == SenderChannelId(0)
            && sender.0@ == name@ && halves_of_one_queue(output_q_size, res.0.spec_output(), rx),
{
    let (output_tx, output_rx) = new_channel(output_q_size);
    proof {
        lemma_new_channel_halves(output_q_size, output_tx, output_rx);
    }
    let name = name.to_string();
    let input = ChannelWrapper::ReceiverNotConnected(ReceiverChannelId(0), ReceiverName(name.clone()));
    let out = ChannelWrapper::SenderNotConnected(SenderChannelId(0), output_rx, SenderName(name.clone()));
    (Box::new(FilterWrap::new(name, filter, input, output_tx)), Box::new(out))
}

} // verus!
