use acto_rs::bench::{next_repeat, report, BenchReport};
use acto_rs::bitset::BitSet;
use acto_rs::channel_id::{self, Direction};
use acto_rs::common::{self, IdentifiedReceiver};
use acto_rs::connectable::{connect_to as connect_receiver, disconnect_from as disconnect_receiver};
use acto_rs::elem::connectable::Connectable;
use acto_rs::elem::counter::{InputCounter, OutputCounter};
use acto_rs::elem::filter::Filter;
use acto_rs::elem::identified_input::IdentifiedInput;
use acto_rs::elem::source::Source;
use acto_rs::elem::{filter, sink, source};
use lossyq::spsc::{channel as new_channel, Receiver};
use acto_rs::sample::evt_source;
use acto_rs::sample::ext_pipeline_filter;
use acto_rs::sample::measured_pipeline_filter::MeasuredPipelineFilter;
use acto_rs::sample::measured_pipeline_sink::{MeasuredPipelineSink, SinkStats};
use acto_rs::sample::measured_pipeline_source::MeasuredPipelineSource;
use acto_rs::sample::tick::{total_nanos, Tick};
use acto_rs::sample::ext_pipeline_sink::ExtPipelineSink;
use acto_rs::scheduler::event::Event;
use acto_rs::{Message, ReceiverChannelId, SenderChannelId, Task};
use std::cell::RefCell;
use std::sync::atomic::AtomicUsize;
use std::sync::Arc;

fn put_value<T: Send + Copy>(tx: &mut lossyq::spsc::Sender<T>, value: T) {
    tx.put(|v| *v = Some(value));
}

fn receiver_take_all<T: Send>(rx: &mut Receiver<T>) -> Vec<T> {
    rx.iter().collect()
}


#[test]
fn bitset_new_is_empty() {
    let mut bs = BitSet::new(4096);
    let seen = RefCell::new(Vec::new());
    bs.for_each(|i, w| seen.borrow_mut().push((i, w)));
    let seen = seen.into_inner();
    assert_eq!(seen.len(), 65);
    assert!(seen.iter().enumerate().all(|(k, (i, w))| *i == k && *w == 0));
    let small = BitSet::new(0);
    let mut n = 0;
    let cnt = RefCell::new(&mut n);
    let mut small = small;
    small.for_each(|_, _| **cnt.borrow_mut() += 1);
    assert_eq!(n, 1);
}

#[test]
fn bitset_set_and_clear() {
    let mut bs = BitSet::new(130);
    bs.set(0);
    bs.set(65);
    bs.set(127);
    bs.set(128);
    let words = RefCell::new(Vec::new());
    bs.for_each(|_, w| words.borrow_mut().push(w));
    assert_eq!(words.into_inner(), vec![1u64, 2u64 | (1u64 << 63), 1u64]);
    bs.clear_all();
    let words = RefCell::new(Vec::new());
    bs.for_each(|_, w| words.borrow_mut().push(w));
    assert_eq!(words.into_inner(), vec![0u64, 0, 0]);
}

#[test]
fn channel_id_text() {
    let id = channel_id::new("Source".to_string(), Direction::Out, 0);
    assert_eq!(id.to_text(), "Id:(Source Out 0)");
    let id = channel_id::new("Sink".to_string(), Direction::In, 1234567);
    assert_eq!(id.to_text(), "Id:(Sink In 1234567)");
}

#[test]
fn common_id_text() {
    let id = common::new_id("F".to_string(), common::Direction::In, 12);
    assert_eq!(id.to_text(), "Id:(F In 12)");
}

fn identified(name: &str) -> Option<IdentifiedReceiver<usize>> {
    let (_tx, rx) = new_channel::<common::Message<usize>>(2);
    Some(IdentifiedReceiver { id: common::new_id(name.to_string(), common::Direction::Out, 0), input: rx })
}

#[test]
fn optional_receiver_connect() {
    let mut me: Option<IdentifiedReceiver<usize>> = None;
    let mut to = identified("Src");
    assert_eq!(connect_receiver(&mut me, &mut to), Ok(()));
    assert!(me.is_some() && to.is_none());
    let mut other = identified("Other");
    assert_eq!(connect_receiver(&mut me, &mut other), Err("already connected to Id:(Src Out 0)".to_string()));
    let mut empty_me: Option<IdentifiedReceiver<usize>> = None;
    let mut empty_to: Option<IdentifiedReceiver<usize>> = None;
    assert_eq!(connect_receiver(&mut empty_me, &mut empty_to), Err("already connected".to_string()));
    assert_eq!(disconnect_receiver(&mut empty_me, &mut empty_to), Err("not connected".to_string()));
    assert_eq!(
        disconnect_receiver(&mut me, &mut other),
        Err("not yet connected. has channel: Id:(Other Out 0)".to_string())
    );
    assert_eq!(disconnect_receiver(&mut me, &mut to), Ok(()));
    assert!(me.is_none() && to.is_some());
}

#[test]
fn event_counts() {
    let mut e = Event::new();
    assert_eq!(e.ready(0), (false, 0));
    assert_eq!(e.notify(), 1);
    assert_eq!(e.notify(), 2);
    assert_eq!(e.ready(0), (true, 2));
    assert_eq!(e.ready(2), (false, 2));
}

#[test]
fn nanos_from_parts() {
    assert_eq!(total_nanos(0, 0), 0);
    assert_eq!(total_nanos(2, 5), 2_000_000_005);
    assert_eq!(total_nanos(18_446_744_073, 709_551_615), u64::MAX);
    assert_eq!(total_nanos(18_446_744_073, 709_551_616), u64::MAX);
    assert_eq!(total_nanos(u64::MAX, 999_999_999), u64::MAX);
}

#[test]
fn tick_elapses() {
    let t = Tick::new();
    let a = t.elapsed_ns();
    let start = std::time::Instant::now();
    while start.elapsed().as_millis() < 2 {}
    let b = t.elapsed_ns();
    assert!(b >= a + 1_000_000);
}

#[test]
fn measured_sink_records() {
    let mut sink = MeasuredPipelineSink::new(Arc::new(AtomicUsize::new(0)));
    sink.record(100, &vec![Message::Value(40), Message::Empty, Message::Value(90)], 120);
    sink.record(130, &vec![Message::Value(125)], 140);
    let stats = sink.stats();
    assert_eq!(stats.avg_latency, 25);
    assert_eq!(stats.count, 3);
    assert_eq!(stats.runs, 2);
    assert_eq!(stats.others_spins_per_exec, 5);
    let _ = SinkStats { ..stats };
}

#[test]
fn measured_sink_wraps_on_late_tick() {
    let mut sink = MeasuredPipelineSink::new(Arc::new(AtomicUsize::new(0)));
    sink.record(5, &vec![Message::Value(6)], 5);
    let stats = sink.stats();
    assert_eq!(stats.avg_latency, u64::MAX);
}

#[test]
fn measured_pipeline_moves_ticks() {
    let (mut src, mut src_out) = source::new("Source", 20, Box::new(MeasuredPipelineSource::new(Event::new())));
    let (mut flt, _flt_out) = filter::new("Filter", 20, Box::new(MeasuredPipelineFilter::new(Event::new(), Event::new())));
    assert!(flt.connect(&mut src_out).is_ok());
    let mut stop = false;
    src.execute(&mut stop);
    src.execute(&mut stop);
    assert_eq!(src.get_tx_count(SenderChannelId(0)), 2);
    assert_eq!(flt.get_rx_count(ReceiverChannelId(0)), 2);
    flt.execute(&mut stop);
    assert!(!stop);
    assert_eq!(flt.get_tx_count(SenderChannelId(0)), 2);
}

#[test]
fn ext_filter_stops_when_unconnected() {
    let (mut flt, _out) = filter::new("Filter", 4, Box::new(ext_pipeline_filter::new(Event::new(), Event::new())));
    let mut stop = false;
    flt.execute(&mut stop);
    assert!(stop);
    let mut snk = sink::new("Sink", Box::new(ExtPipelineSink::new(Event::new(), Event::new())));
    let mut stop = false;
    snk.execute(&mut stop);
    assert!(stop);
}

#[test]
fn filter_counts_its_runs_and_messages() {
    let mut f = MeasuredPipelineFilter::new(Event::new(), Event::new());
    let mut s = MeasuredPipelineSource::new(Event::new());
    let (mut tx, rx) = new_channel(4);
    let mut stop = false;
    s.process(&mut tx, &mut stop);
    s.process(&mut tx, &mut stop);
    assert_eq!(s.exec_count(), 2);
    let mut input = acto_rs::ChannelWrapper::ConnectedReceiver(
        acto_rs::ChannelId { sender_id: SenderChannelId(0), receiver_id: ReceiverChannelId(0) },
        rx,
        acto_rs::SenderName("Source".to_string()),
    );
    let (mut out_tx, mut out_rx) = new_channel(4);
    f.process(&mut input, &mut out_tx, &mut stop);
    assert_eq!(f.counts(), (1, 2));
    assert_eq!(receiver_take_all(&mut out_rx).len(), 2);
}

#[test]
fn evt_source_sends_zero() {
    let mut s = evt_source::new(Event::new());
    let (mut tx, mut rx) = new_channel(4);
    let mut stop = false;
    s.process(&mut tx, &mut stop);
    let got = receiver_take_all(&mut rx);
    assert_eq!(got.len(), 1);
    assert!(matches!(got[0], Message::Value(0)));
}

#[test]
fn bench_decisions() {
    assert_eq!(next_repeat(200_000_001), None);
    assert_eq!(next_repeat(200_000_000), Some(1));
    assert_eq!(next_repeat(1_000_000), Some(1 + 199 / 10 * 9));
    assert_eq!(next_repeat(100), Some(1 + 1_999_999 / 10 * 9));
    assert_eq!(
        report(250_000_000, 1_000_000),
        BenchReport { avg_ns: 250, iterations: 1_000_000, m_iter_per_sec: 4, k_iter_per_sec: 4_000 }
    );
}


struct NoReport {}
impl acto_rs::common::Reporter for NoReport {
    fn message_sent(&mut self, _channel_id: usize, _last_msg_id: usize) {}
}

struct Echo {}
impl acto_rs::filter::Filter for Echo {
    type InputType = usize;
    type OutputType = usize;
    fn process(
        &mut self,
        _input: &mut lossyq::spsc::Receiver<common::Message<usize>>,
        _output: &mut lossyq::spsc::Sender<common::Message<usize>>,
    ) -> common::Schedule {
        common::Schedule::Loop
    }
}

#[test]
fn optional_input_filter_waits_without_input() {
    let mut f = acto_rs::filter::new("F".to_string(), 4, Box::new(Echo {}));
    assert_eq!(acto_rs::common::Task::name(&*f), "F");
    let mut r = NoReport {};
    assert_eq!(acto_rs::common::Task::execute(&mut *f, &mut r), common::Schedule::EndPlusUSec(10_000));
}

#[test]
fn queue_size_checks() {
    assert!(acto_rs::lossy::queue_size_ok::<Message<usize, &'static str>>(20));
    assert!(acto_rs::lossy::queue_size_ok::<Message<usize, &'static str>>(0));
    assert!(!acto_rs::lossy::queue_size_ok::<Message<usize, &'static str>>(usize::MAX));
    assert!(!acto_rs::lossy::queue_size_ok::<u64>(usize::MAX / 16));
    assert!(acto_rs::lossy::queue_size_ok::<()>(usize::MAX / 16));
}

#[test]
fn ext_pipeline_is_connected() {
    let (mut src, mut flt, mut snk) = acto_rs::sample::ext_pipeline::connected_tasks();
    let (id, name) = flt.get_input_id(ReceiverChannelId(0)).unwrap();
    assert_eq!(id, acto_rs::ChannelId { sender_id: SenderChannelId(0), receiver_id: ReceiverChannelId(0) });
    assert_eq!(name.0, "Source");
    assert_eq!(snk.get_input_id(ReceiverChannelId(0)).unwrap().1 .0, "Filter");
    let mut stop = false;
    src.execute(&mut stop);
    src.execute(&mut stop);
    flt.execute(&mut stop);
    assert_eq!(flt.get_tx_count(SenderChannelId(0)), 2);
    snk.execute(&mut stop);
    assert_eq!(snk.get_rx_count(ReceiverChannelId(0)), 2);
    assert!(!stop);
}

fn connected_input<V: Send, E: Send>(rx: lossyq::spsc::Receiver<Message<V, E>>) -> acto_rs::ChannelWrapper<V, E> {
    acto_rs::ChannelWrapper::ConnectedReceiver(
        acto_rs::ChannelId { sender_id: SenderChannelId(4), receiver_id: ReceiverChannelId(0) },
        rx,
        acto_rs::SenderName("Up".to_string()),
    )
}

#[test]
fn ext_filter_step_forwards_and_schedules() {
    let mut f = ext_pipeline_filter::new(Event::new(), Event::new());
    let (mut tx, rx) = new_channel::<Message<usize, &'static str>>(8);
    put_value(&mut tx, Message::Value(1));
    put_value(&mut tx, Message::Value(2));
    put_value(&mut tx, Message::Value(3));
    let mut input = connected_input(rx);
    let (mut out_tx, mut out_rx) = new_channel(8);
    let s = f.step(&mut input, &mut out_tx);
    let id = acto_rs::ChannelId { sender_id: SenderChannelId(4), receiver_id: ReceiverChannelId(0) };
    assert_eq!(s, acto_rs::Schedule::OnMessage(id, acto_rs::ChannelPosition(4)));
    let got: Vec<usize> = receiver_take_all(&mut out_rx)
        .into_iter()
        .filter_map(|m| if let Message::Value(v) = m { Some(v) } else { None })
        .collect();
    assert_eq!(got, vec![1, 2, 3]);
    let mut unconnected = acto_rs::ChannelWrapper::ReceiverNotConnected(ReceiverChannelId(0), acto_rs::ReceiverName("F".to_string()));
    assert_eq!(f.step(&mut unconnected, &mut out_tx), acto_rs::Schedule::Stop);
}

#[test]
fn sinks_count_each_message() {
    let mut e = ExtPipelineSink::new(Event::new(), Event::new());
    let (mut tx, rx) = new_channel::<Message<usize, &'static str>>(8);
    put_value(&mut tx, Message::Value(7));
    put_value(&mut tx, Message::Empty);
    let mut input = connected_input(rx);
    let s = e.step(&mut input);
    assert!(matches!(s, acto_rs::Schedule::OnMessage(_, acto_rs::ChannelPosition(3))));
    let mut unconnected = acto_rs::ChannelWrapper::ReceiverNotConnected(ReceiverChannelId(0), acto_rs::ReceiverName("S".to_string()));
    assert_eq!(e.step(&mut unconnected), acto_rs::Schedule::Stop);

    let mut m = MeasuredPipelineFilter::new(Event::new(), Event::new());
    let (mut out_tx, _out_rx) = new_channel(4);
    m.forward_messages(&vec![Message::Value(Tick::new()), Message::Empty], &mut out_tx);
    assert_eq!(m.counts(), (0, 2));

    let mut es = acto_rs::sample::evt_sink::new(Event::new(), Event::new());
    es.count_messages(&vec![Message::Value(1), Message::Value(2), Message::Value(3)]);
    let (_tx2, rx2) = new_channel::<Message<usize, &'static str>>(2);
    let mut input2 = connected_input(rx2);
    assert_eq!(es.step(&mut input2), acto_rs::Schedule::Loop);
}

#[test]
fn measured_sink_step_needs_connection() {
    let mut sink = MeasuredPipelineSink::new(Arc::new(AtomicUsize::new(0)));
    let mut unconnected = acto_rs::ChannelWrapper::ReceiverNotConnected(ReceiverChannelId(0), acto_rs::ReceiverName("S".to_string()));
    assert_eq!(sink.step(&mut unconnected), Err("The channel is not connected"));
    let (mut tx, rx) = new_channel::<Message<usize, &'static str>>(4);
    put_value(&mut tx, Message::Value(0));
    let mut input = connected_input(rx);
    assert_eq!(sink.step(&mut input), Ok(()));
    let stats = sink.stats();
    assert_eq!(stats.count, 1);
    assert_eq!(stats.runs, 1);
    assert_eq!(stats.avg_latency, 0);
}

#[test]
fn bitset_for_each_visits_every_word_in_order() {
    let mut bs = BitSet::new(200);
    bs.set(70);
    let seen = RefCell::new(Vec::new());
    bs.for_each(|i, w| seen.borrow_mut().push((i, w)));
    assert_eq!(seen.into_inner(), vec![(0, 0), (1, 1u64 << 6), (2, 0), (3, 0)]);
}

#[test]
fn ext_source_sends_zero_each_run() {
    let mut s = acto_rs::sample::ext_pipeline_source::ExtPipelineSource::new(Event::new());
    let (mut tx, mut rx) = new_channel(4);
    let mut stop = false;
    s.process(&mut tx, &mut stop);
    s.process(&mut tx, &mut stop);
    assert!(!stop);
    let got = receiver_take_all(&mut rx);
    assert_eq!(got.len(), 2);
    assert!(got.iter().all(|m| matches!(m, Message::Value(0))));
}

#[test]
fn measured_filter_forwards_in_order() {
    let mut m = MeasuredPipelineFilter::new(Event::new(), Event::new());
    let (mut out_tx, mut out_rx) = new_channel(4);
    let first = Tick::new();
    m.forward_messages(&vec![Message::Value(first), Message::Empty, Message::Error(acto_rs::ChannelPosition(9), "late")], &mut out_tx);
    let got = receiver_take_all(&mut out_rx);
    assert_eq!(got.len(), 3);
    assert!(matches!(got[0], Message::Value(_)));
    assert!(matches!(got[1], Message::Empty));
    assert!(matches!(got[2], Message::Error(acto_rs::ChannelPosition(9), "late")));
}
