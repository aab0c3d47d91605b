//! Filters of the single-input element interface: the input is an optional
//! identified receiver, and the filter's own output queue is kept, with its
//! id, for a receiver to take.

use crate::channel_id;
use crate::common::{Message, Reporter, Schedule, Task};
use crate::identified_receiver::IdentifiedReceiver;
use crate::lossy::{new_channel, queue_size_fits};
use lossyq::spsc::{Receiver, Sender};
use vstd::prelude::*;

verus! {

/// The processing logic of a filter, implemented by the user.
pub trait Filter: Sized {
    type InputType: Copy + Send;
    type OutputType: Copy + Send;

    /// What one run of `process` does, as the implementation states it (an
    /// implementation that states nothing promises nothing): the filter goes
    /// from `old` to `new`, the receiving half of its input from `old_input`
    /// to `new_input`, the sending half of its output from `old_output` to
    /// `new_output`, and the run returns `res`.
    open spec fn process_effect(
        old: Self,
        new: Self,
        old_input: Receiver<Message<Self::InputType>>,
        new_input: Receiver<Message<Self::InputType>>,
        old_output: Sender<Message<Self::OutputType>>,
        new_output: Sender<Message<Self::OutputType>>,
        res: Schedule,
    ) -> bool {
        true
    }

    fn process(
        &mut self,
        input: &mut Receiver<Message<Self::InputType>>,
        output: &mut Sender<Message<Self::OutputType>>,
    ) -> (res: Schedule)
        ensures
            Self::process_effect(*old(self), *final(self), *old(input), *final(input), *old(output), *final(output), res),
    ;
}

/// A filter together with its name, its optional input, the sending half of
/// its output queue and, until a receiver takes it, the receiving half.
pub struct FilterWrap<F: Filter> {
    name: String,
    filter: Box<F>,
    input_rx: Option<IdentifiedReceiver<F::InputType>>,
    output_tx: Sender<Message<F::OutputType>>,
    output_rx: Option<IdentifiedReceiver<F::OutputType>>,
}

impl<F: Filter> FilterWrap<F> {
    pub closed spec fn spec_name(&self) -> String {
        self.name
    }

    pub closed spec fn spec_filter(&self) -> F {
        *self.filter
    }

    pub closed spec fn spec_input(&self) -> Option<IdentifiedReceiver<F::InputType>> {
        self.input_rx
    }

    pub closed spec fn spec_output(&self) -> Sender<Message<F::OutputType>> {
        self.output_tx
    }

    pub closed spec fn spec_output_rx(&self) -> Option<IdentifiedReceiver<F::OutputType>> {
        self.output_rx
    }
}

impl<F: Filter> Task for FilterWrap<F> {
    /// Runs the filter on the input when there is one; without an input it
    /// asks to be run again 10 ms after the end of this run.
    fn execute<R: Reporter>(&mut self, reporter: &mut R) -> (res: Schedule)
        ensures
            old(self).spec_input() is None ==> res == Schedule::EndPlusUSec(10_000) && *final(self) == *old(self),
            old(self).spec_input() matches Some(r) ==> final(self).spec_input() matches Some(r2) && r2.id == r.id
                && F::process_effect(
                old(self).spec_filter(),
                final(self).spec_filter(),
                r.input,
                r2.input,
                old(self).spec_output(),
                final(self).spec_output(),
                res,
            ),
            final(self).spec_name() == old(self).spec_name(),
            final(self).spec_output_rx() == old(self).spec_output_rx(),
    {
        match &mut self.input_rx {
            Some(identified) => self.filter.process(&mut identified.input, &mut self.output_tx),
            None => Schedule::EndPlusUSec(10_000),
        }
    }

    fn name(&self) -> (res: &String)
        ensures
            *res == self.spec_name(),
    {
        &self.name
    }
}

/// A new filter task named `name` running `filter`, with no input yet and a
/// new output queue of `output_q_size` slots whose receiving half waits in
/// the task with the id `(name, Out, 0)`.
pub fn new<F: Filter>(name: String, output_q_size: usize, filter: Box<F>) -> (res: Box<FilterWrap<F>>)
    requires
        queue_size_fits::<Message<F::OutputType>>(output_q_size),
    ensures
        res.spec_name() == name,
        res.spec_filter() == *filter,
        res.spec_input() is None,
        res.spec_output_rx() matches Some(r) && r.id.spec_task_name() == name@ && r.id.spec_dir()
            == channel_id::Direction::Out && r.id.spec_id() == 0,
{
    let (output_tx, output_rx) = new_channel(output_q_size);
    Box::new(
        FilterWrap {
            name: name.clone(),
            filter,
            input_rx: None,
            output_tx,
            output_rx: Some(
                IdentifiedReceiver {
                    id: channel_id::new(name.clone(), channel_id::Direction::Out, 0),
                    input: output_rx,
                },
            ),
        },
    )
}

} // verus!
