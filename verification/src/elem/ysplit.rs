//! Y-split elements: one input, two outputs of possibly different types.

use crate::elem::wrap::ysplit_wrap::YSplitWrap;
use crate::lossy::{halves_of_one_queue, lemma_new_channel_halves, new_channel, queue_size_fits};
use crate::{ChannelWrapper, Message, ReceiverChannelId, ReceiverName, SenderChannelId, SenderName};
use lossyq::spsc::Sender;
use vstd::prelude::*;

verus! {

/// The processing logic of a Y-split, implemented by the user.
pub trait YSplit: Sized {
    type InputValue: Send;
    type InputError: Send;
    type OutputValueA: Send;
    type OutputErrorA: Send;
    type OutputValueB: Send;
    type OutputErrorB: Send;

    /// What one run of `process` does, as the implementation states it (an implementation that states nothing
    /// promises nothing): the
    /// Y-split goes from `old` to `new`, and each of its input end, output
    /// senders and stop flag from its `old_` to its `new_` value.
    open spec fn process_effect(
        old: Self,
        new: Self,
        old_input: ChannelWrapper<Self::InputValue, Self::InputError>,
        new_input: ChannelWrapper<Self::InputValue, Self::InputError>,
        old_output_a: Sender<Message<Self::OutputValueA, Self::OutputErrorA>>,
        new_output_a: Sender<Message<Self::OutputValueA, Self::OutputErrorA>>,
        old_output_b: Sender<Message<Self::OutputValueB, Self::OutputErrorB>>,
        new_output_b: Sender<Message<Self::OutputValueB, Self::OutputErrorB>>,
        old_stop: bool,
        new_stop: bool,
    ) -> bool {
        true
    }

    fn process(
        &mut self,
        input: &mut ChannelWrapper<Self::InputValue, Self::InputError>,
        output_a: &mut Sender<Message<Self::OutputValueA, Self::OutputErrorA>>,
        output_b: &mut Sender<Message<Self::OutputValueB, Self::OutputErrorB>>,
        stop: &mut bool,
    )
        ensures
            Self::process_effect(
                *old(self),
                *final(self),
                *old(input),
                *final(input),
                *old(output_a),
                *final(output_a),
                *old(output_b),
                *final(output_b),
                *old(stop),
                *final(stop),
            ),
    ;
}

/// A new Y-split task named `name` running `ysplit`, with its input
/// unconnected (receiver index 0) and two new output queues of
/// `output_a_q_size` and `output_b_q_size` slots; and the unconnected sender
/// ends of those queues (sender indices 0 and 1). All ends are named after
/// the task.
pub fn new<Y: YSplit>(name: &str, output_a_q_size: usize, output_b_q_size: usize, ysplit: Box<Y>) -> (res: (
    Box<YSplitWrap<Y>>,
    Box<ChannelWrapper<Y::OutputValueA, Y::OutputErrorA>>,
    Box<ChannelWrapper<Y::OutputValueB, Y::OutputErrorB>>,
))
    requires
        queue_size_fits::<Message<Y::OutputValueA, Y::OutputErrorA>>(output_a_q_size),
        queue_size_fits::<Message<Y::OutputValueB, Y::OutputErrorB>>(output_b_q_size),
    ensures
        res.0.spec_name()@ == name@,
        res.0.spec_state() == *ysplit,
        res.0.spec_input() matches ChannelWrapper::ReceiverNotConnected(id, receiver) && id == ReceiverChannelId(0)
            && receiver.0@ == name@,
        *res.1 matches ChannelWrapper::SenderNotConnected(id, rx, sender) && id == SenderChannelId(0)
            && sender.0@ == name@ && halves_of_one_queue(output_a_q_size, res.0.spec_output_a(), rx),
        *res.2 matches ChannelWrapper::SenderNotConnected(id, rx, sender) && id == SenderChannelId(1)
            && sender.0@ == name@ && halves_of_one_queue(output_b_q_size, res.0.spec_output_b(), rx),
{
    let (output_a_tx, output_a_rx) = new_channel(output_a_q_size);
    proof {
        lemma_new_channel_halves(output_a_q_size, output_a_tx, output_a_rx);
    }
    let (output_b_tx, output_b_rx) = new_channel(output_b_q_size);
    proof {
        lemma_new_channel_halves(output_b_q_size, output_b_tx, output_b_rx);
    }
    let name = name.to_string();
    let input = ChannelWrapper::ReceiverNotConnected(ReceiverChannelId(0), ReceiverName(name.clone()));
    let out_a = ChannelWrapper::SenderNotConnected(SenderChannelId(0), output_a_rx, SenderName(name.clone()));
    let out_b = ChannelWrapper::SenderNotConnected(SenderChannelId(1), output_b_rx, SenderName(name.clone()));
    (Box::new(YSplitWrap::new(name, ysplit, input, output_a_tx, output_b_tx)), Box::new(out_a), Box::new(out_b))
}

} // verus!
