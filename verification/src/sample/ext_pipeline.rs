//! The tasks of the externally triggered sample pipeline, created and
//! connected: source, then filter, then sink.

use crate::elem::connectable::Connectable;
use crate::elem::wrap::filter_wrap::FilterWrap;
use crate::elem::wrap::sink_wrap::SinkWrap;
use crate::elem::wrap::source_wrap::SourceWrap;
use crate::elem::{filter, sink, source};
use crate::lossy::queue_size_fits;
use crate::sample::ext_pipeline_filter::{self, ExtPipelineFilter};
use crate::sample::ext_pipeline_sink::ExtPipelineSink;
use crate::sample::ext_pipeline_source::ExtPipelineSource;
use crate::scheduler::event::Event;
use crate::{ChannelId, ChannelWrapper, Message, ReceiverChannelId, SenderChannelId};
use vstd::prelude::*;

verus! {

/// The source, filter and sink tasks of the pipeline, named "Source",
/// "Filter" and "Sink", with output queues of 20 slots and fresh events; the
/// filter's input is connected to the source's output and the sink's input to
/// the filter's output, each recording its sender's name.
pub fn connected_tasks() -> (res: (
    Box<SourceWrap<ExtPipelineSource>>,
    Box<FilterWrap<ExtPipelineFilter>>,
    Box<SinkWrap<ExtPipelineSink>>,
))
    requires
        queue_size_fits::<Message<usize, &'static str>>(20),
    ensures
        res.0.spec_name()@ == "Source"@,
        res.1.spec_input() matches ChannelWrapper::ConnectedReceiver(id, _, sender) && id == (ChannelId {
            sender_id: SenderChannelId(0),
            receiver_id: ReceiverChannelId(0),
        }) && sender.0@ == "Source"@,
        res.2.spec_input() matches ChannelWrapper::ConnectedReceiver(id, _, sender) && id == (ChannelId {
            sender_id: SenderChannelId(0),
            receiver_id: ReceiverChannelId(0),
        }) && sender.0@ == "Filter"@,
{
    let (source_task, mut source_out) = source::new("Source", 20, Box::new(ExtPipelineSource::new(Event::new())));
    let (mut filter_task, mut filter_out) = filter::new(
        "Filter",
        20,
        Box::new(ext_pipeline_filter::new(Event::new(), Event::new())),
    );
    let mut sink_task = sink::new("Sink", Box::new(ExtPipelineSink::new(Event::new(), Event::new())));
    let _connected_filter = filter_task.connect(&mut *source_out);
    let _connected_sink = sink_task.connect(&mut *filter_out);
    (source_task, filter_task, sink_task)
}

} // verus!
