//! Sink elements: one input, no output.

use crate::elem::wrap::sink_wrap::SinkWrap;
use crate::{ChannelWrapper, ReceiverChannelId, ReceiverName};
use vstd::prelude::*;

verus! {

/// The processing logic of a sink, implemented by the user.
pub trait Sink: Sized {
    type InputValue: Send;
    type InputError: Send;

    /// What one run of `process` does, as the implementation states it (an implementation that states nothing
    /// promises nothing): the
    /// sink goes from `old` to `new`, its input end from `old_input` to
    /// `new_input`, and the stop flag from `old_stop` to `new_stop`.
    open spec fn process_effect(
        old: Self,
        new: Self,
        old_input: ChannelWrapper<Self::InputValue, Self::InputError>,
        new_input: ChannelWrapper<Self::InputValue, Self::InputError>,
        old_stop: bool,
        new_stop: bool,
    ) -> bool {
        true
    }

    fn process(&mut self, input: &mut ChannelWrapper<Self::InputValue, Self::InputError>, stop: &mut bool)
        ensures
            Self::process_effect(*old(self), *final(self), *old(input), *final(input), *old(stop), *final(stop)),
    ;
}

/// A new sink task named `name` running `sink`, with its one input
/// unconnected (receiver index 0, named after the task).
pub fn new<S: Sink>(name: &str, sink: Box<S>) -> (res: Box<SinkWrap<S>>)
    ensures
        res.spec_name()@ == name@,
        res.spec_state() == *sink,
        res.spec_input() == ChannelWrapper::<S::InputValue, S::InputError>::ReceiverNotConnected(
            ReceiverChannelId(0),
            ReceiverName(res.spec_name()),
        ),
{
    let name = name.to_string();
    let input = ChannelWrapper::ReceiverNotConnected(ReceiverChannelId(0), ReceiverName(name.clone()));
    Box::new(SinkWrap::new(name, sink, input))
}

} // verus!
