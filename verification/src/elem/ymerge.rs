//! Y-merge elements: two inputs of possibly different types, one output.

use crate::elem::wrap::ymerge_wrap::YMergeWrap;
use crate::lossy::{halves_of_one_queue, lemma_new_channel_halves, new_channel, queue_size_fits};
use crate::{ChannelWrapper, Message, ReceiverChannelId, ReceiverName, SenderChannelId, SenderName};
use lossyq::spsc::Sender;
use vstd::prelude::*;

verus! {

/// The processing logic of a Y-merge, implemented by the user.
pub trait YMerge: Sized {
    type InputValueA: Send;
    type InputErrorA: Send;
    type InputValueB: Send;
    type InputErrorB: Send;
    type OutputValue: Send;
    type OutputError: Send;

    /// What one run of `process` does, as the implementation states it (an implementation that states nothing
    /// promises nothing): the
    /// Y-merge goes from `old` to `new`, and each of its input ends, output
    /// sender and stop flag from its `old_` to its `new_` value.
    open spec fn process_effect(
        old: Self,
        new: Self,
        old_input_a: ChannelWrapper<Self::InputValueA, Self::InputErrorA>,
        new_input_a: ChannelWrapper<Self::InputValueA, Self::InputErrorA>,
        old_input_b: ChannelWrapper<Self::InputValueB, Self::InputErrorB>,
        new_input_b: ChannelWrapper<Self::InputValueB, Self::InputErrorB>,
        old_output: Sender<Message<Self::OutputValue, Self::OutputError>>,
        new_output: Sender<Message<Self::OutputValue, Self::OutputError>>,
        old_stop: bool,
        new_stop: bool,
    ) -> bool {
        true
    }

    fn process(
        &mut self,
        input_a: &mut ChannelWrapper<Self::InputValueA, Self::InputErrorA>,
        input_b: &mut ChannelWrapper<Self::InputValueB, Self::InputErrorB>,
        output: &mut Sender<Message<Self::OutputValue, Self::OutputError>>,
        stop: &mut bool,
    )
        ensures
            Self::process_effect(
                *old(self),
                *final(self),
                *old(input_a),
                *final(input_a),
                *old(input_b),
                *final(input_b),
                *old(output),
                *final(output),
                *old(stop),
                *final(stop),
            ),
    ;
}

/// A new Y-merge task named `name` running `ymerge`, with its two inputs
/// unconnected (receiver indices 0 and 1) and its output a new queue of
/// `output_q_size` slots; and the unconnected sender end of that queue
/// (sender index 0). All ends are named after the task.
pub fn new<Y: YMerge>(name: &str, output_q_size: usize, ymerge: Box<Y>) -> (res: (
    Box<YMergeWrap<Y>>,
    Box<ChannelWrapper<Y::OutputValue, Y::OutputError>>,
))
    requires
        queue_size_fits::<Message<Y::OutputValue, Y::OutputError>>(output_q_size),
    ensures
        res.0.spec_name()@ == name@,
        res.0.spec_state() == *ymerge,
        res.0.spec_input_a() matches ChannelWrapper::ReceiverNotConnected(id, receiver) && id == ReceiverChannelId(0)
            && receiver.0@ == name@,
        res.0.spec_input_b() matches ChannelWrapper::ReceiverNotConnected(id, receiver) && id == ReceiverChannelId(1)
            && receiver.0@ == name@,
        *res.1 matches ChannelWrapper::SenderNotConnected(id, rx, sender) && id == SenderChannelId(0)
            && sender.0@ == name@ && halves_of_one_queue(output_q_size, res.0.spec_output(), rx),
{
    let (output_tx, output_rx) = new_channel(output_q_size);
    proof {
        lemma_new_channel_halves(output_q_size, output_tx, output_rx);
    }
    let name = name.to_string();
    let input_a = ChannelWrapper::ReceiverNotConnected(ReceiverChannelId(0), ReceiverName(name.clone()));
    let input_b = ChannelWrapper::ReceiverNotConnected(ReceiverChannelId(1), ReceiverName(name.clone()));
    let out = ChannelWrapper::SenderNotConnected(SenderChannelId(0), output_rx, SenderName(name.clone()));
    (Box::new(YMergeWrap::new(name, ymerge, input_a, input_b, output_tx)), Box::new(out))
}

} // verus!
