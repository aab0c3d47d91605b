//! Source elements: no input, one output.

use crate::elem::wrap::source_wrap::SourceWrap;
use crate::lossy::{halves_of_one_queue, lemma_new_channel_halves, new_channel, queue_size_fits};
use crate::{ChannelWrapper, Message, SenderChannelId, SenderName};
use lossyq::spsc::Sender;
use vstd::prelude::*;

verus! {

/// The processing logic of a source, implemented by the user.
pub trait Source: Sized {
    type OutputValue: Send;
    type OutputError: Send;

    /// What one run of `process` does, as the implementation states it (an implementation that states nothing
    /// promises nothing): the
    /// source goes from `old` to `new`, the sending half of its output queue
    /// from `old_output` to `new_output`, and the stop flag from `old_stop`
    /// to `new_stop`.
    open spec fn process_effect(
        old: Self,
        new: Self,
        old_output: Sender<Message<Self::OutputValue, Self::OutputError>>,
        new_output: Sender<Message<Self::OutputValue, Self::OutputError>>,
        old_stop: bool,
        new_stop: bool,
    ) -> bool {
        true
    }

    fn process(&mut self, output: &mut Sender<Message<Self::OutputValue, Self::OutputError>>, stop: &mut bool)
        ensures
            Self::process_effect(*old(self), *final(self), *old(output), *final(output), *old(stop), *final(stop)),
    ;
}

/// A new source task named `name` running `source`, whose output is a new
/// queue of `output_q_size` slots; and the unconnected sender end of that
/// queue (sender index 0, named after the task), for a receiver to connect to.
pub fn new<S: Source>(name: &str, output_q_size: usize, source: Box<S>) -> (res: (
    Box<SourceWrap<S>>,
    Box<ChannelWrapper<S::OutputValue, S::OutputError>>,
))
    requires
        queue_size_fits::<Message<S::OutputValue, S::OutputError>>(output_q_size),
    ensures
        res.0.spec_name()@ == name@,
        res.0.spec_state() == *source,
        *res.1 matches ChannelWrapper::SenderNotConnected(id, rx, sender) && id == SenderChannelId(0)
            && sender.0@ == name@ && halves_of_one_queue(output_q_size, res.0.spec_output(), rx),
{
    let (output_tx, output_rx) = new_channel(output_q_size);
    proof {
        lemma_new_channel_halves(output_q_size, output_tx, output_rx);
    }
    let name = name.to_string();
    let out = ChannelWrapper::SenderNotConnected(SenderChannelId(0), output_rx, SenderName(name.clone()));
    (Box::new(SourceWrap::new(name, source, output_tx)), Box::new(out))
}

} // verus!
