use acto_rs::elem::connectable::{connect_to, disconnect_from, Connectable, ConnectableN, ConnectableY};
use acto_rs::elem::counter::{InputCounter, OutputCounter};
use acto_rs::elem::identified_input::IdentifiedInput;
use acto_rs::elem::{gather, scatter, sink, source, ymerge, ysplit};
use lossyq::spsc::{channel as new_channel, Receiver};
use acto_rs::sample::dummy_sink::DummySink;
use acto_rs::sample::dummy_source::DummySource;
use acto_rs::{
    ActualChannelState, ChannelId, ChannelState, ChannelWrapper, Error, ExpectedChannelState, Message,
    ReceiverChannelId, ReceiverName, SenderChannelId, SenderName, Task,
};
use acto_rs::elem::gather::Gather;
use acto_rs::elem::scatter::Scatter;
use acto_rs::elem::ymerge::YMerge;
use acto_rs::elem::ysplit::YSplit;
use lossyq::spsc::Sender;

fn put_value<T: Send + Copy>(tx: &mut lossyq::spsc::Sender<T>, value: T) {
    tx.put(|v| *v = Some(value));
}

fn receiver_take_all<T: Send>(rx: &mut Receiver<T>) -> Vec<T> {
    rx.iter().collect()
}


type Cw = ChannelWrapper<usize, &'static str>;

fn invalid(expected: ChannelState, actual: ChannelState) -> Error {
    Error::InvalidChannelState(ExpectedChannelState(expected), ActualChannelState(actual))
}

fn unconnected_receiver(id: usize, name: &str) -> Cw {
    ChannelWrapper::ReceiverNotConnected(ReceiverChannelId(id), ReceiverName(name.to_string()))
}

fn unconnected_sender(id: usize, name: &str) -> Cw {
    let (_tx, rx) = new_channel::<Message<usize, &'static str>>(4);
    ChannelWrapper::SenderNotConnected(SenderChannelId(id), rx, SenderName(name.to_string()))
}

fn ids(cw: &Cw) -> (ChannelState, Option<ChannelId>, String) {
    match cw {
        ChannelWrapper::ReceiverNotConnected(id, n) => (ChannelState::ReceiverNotConnected, Some(ChannelId { sender_id: SenderChannelId(usize::MAX), receiver_id: *id }), n.0.clone()),
        ChannelWrapper::ConnectedReceiver(id, _, n) => (ChannelState::ConnectedReceiver, Some(*id), n.0.clone()),
        ChannelWrapper::SenderNotConnected(id, _, n) => (ChannelState::SenderNotConnected, Some(ChannelId { sender_id: *id, receiver_id: ReceiverChannelId(usize::MAX) }), n.0.clone()),
        ChannelWrapper::ConnectedSender(id, n) => (ChannelState::ConnectedSender, Some(*id), n.0.clone()),
    }
}

#[test]
fn connect_disconnect() {
    let (_source_task, mut source_out) = source::new("Source", 20, Box::new(DummySource {}));
    let mut sink_task = sink::new("Sink", Box::new(DummySink {}));

    assert!(sink_task.connect(&mut source_out).is_ok());
    assert!(sink_task.disconnect(&mut source_out).is_ok());
    assert!(sink_task.connect(&mut source_out).is_ok());
}

#[test]
fn filter_dummy() {}

#[test]
fn gather_dummy() {}

#[test]
fn scheduler_dummy() {}

#[test]
fn connect_moves_queue_and_swaps_names() {
    let mut rcv = unconnected_receiver(3, "Sink");
    let mut snd = unconnected_sender(5, "Source");
    assert_eq!(connect_to(&mut rcv, &mut snd), Ok(()));
    let id = ChannelId { sender_id: SenderChannelId(5), receiver_id: ReceiverChannelId(3) };
    assert_eq!(ids(&rcv), (ChannelState::ConnectedReceiver, Some(id), "Source".to_string()));
    assert_eq!(ids(&snd), (ChannelState::ConnectedSender, Some(id), "Sink".to_string()));
}

#[test]
fn connect_from_sender_side_is_the_same() {
    let mut rcv = unconnected_receiver(1, "B");
    let mut snd = unconnected_sender(2, "A");
    assert_eq!(connect_to(&mut snd, &mut rcv), Ok(()));
    let id = ChannelId { sender_id: SenderChannelId(2), receiver_id: ReceiverChannelId(1) };
    assert_eq!(ids(&rcv), (ChannelState::ConnectedReceiver, Some(id), "A".to_string()));
    assert_eq!(ids(&snd), (ChannelState::ConnectedSender, Some(id), "B".to_string()));
    assert_eq!(disconnect_from(&mut snd, &mut rcv), Ok(()));
    assert_eq!(ids(&rcv).0, ChannelState::ReceiverNotConnected);
    assert_eq!(ids(&snd).0, ChannelState::SenderNotConnected);
}

#[test]
fn connect_then_disconnect_restores() {
    let mut rcv = unconnected_receiver(7, "R");
    let mut snd = unconnected_sender(9, "S");
    let before = (ids(&rcv), ids(&snd));
    assert!(connect_to(&mut rcv, &mut snd).is_ok());
    assert!(disconnect_from(&mut rcv, &mut snd).is_ok());
    assert_eq!((ids(&rcv), ids(&snd)), before);
}

#[test]
fn connect_errors() {
    let mut r1 = unconnected_receiver(0, "a");
    let mut r2 = unconnected_receiver(1, "b");
    assert_eq!(
        connect_to(&mut r1, &mut r2),
        Err(invalid(ChannelState::SenderNotConnected, ChannelState::ReceiverNotConnected))
    );
    let mut s1 = unconnected_sender(0, "c");
    let mut s2 = unconnected_sender(1, "d");
    assert_eq!(
        connect_to(&mut s1, &mut s2),
        Err(invalid(ChannelState::ReceiverNotConnected, ChannelState::SenderNotConnected))
    );
    // connect r1 and s1, then every further connection of them is refused
    assert!(connect_to(&mut r1, &mut s1).is_ok());
    assert_eq!(
        connect_to(&mut r1, &mut s2),
        Err(invalid(ChannelState::ReceiverNotConnected, ChannelState::ConnectedReceiver))
    );
    assert_eq!(
        connect_to(&mut s1, &mut r2),
        Err(invalid(ChannelState::SenderNotConnected, ChannelState::ConnectedSender))
    );
    assert_eq!(
        connect_to(&mut r2, &mut s1),
        Err(invalid(ChannelState::SenderNotConnected, ChannelState::ConnectedSender))
    );
    assert_eq!(
        connect_to(&mut s2, &mut r1),
        Err(invalid(ChannelState::ReceiverNotConnected, ChannelState::ConnectedReceiver))
    );
    // nothing changed on the refusals
    assert_eq!(ids(&r2).0, ChannelState::ReceiverNotConnected);
    assert_eq!(ids(&s2).0, ChannelState::SenderNotConnected);
}

#[test]
fn disconnect_errors() {
    let mut r = unconnected_receiver(0, "a");
    let mut s = unconnected_sender(0, "b");
    assert_eq!(
        disconnect_from(&mut r, &mut s),
        Err(invalid(ChannelState::ConnectedReceiver, ChannelState::ReceiverNotConnected))
    );
    assert_eq!(
        disconnect_from(&mut s, &mut r),
        Err(invalid(ChannelState::ConnectedSender, ChannelState::SenderNotConnected))
    );
    let mut r2 = unconnected_receiver(1, "c");
    let mut s2 = unconnected_sender(1, "d");
    assert!(connect_to(&mut r, &mut s).is_ok());
    assert!(connect_to(&mut r2, &mut s2).is_ok());
    assert_eq!(
        disconnect_from(&mut r, &mut r2),
        Err(invalid(ChannelState::ConnectedSender, ChannelState::ConnectedReceiver))
    );
    assert_eq!(
        disconnect_from(&mut s, &mut s2),
        Err(invalid(ChannelState::ConnectedSender, ChannelState::SenderNotConnected))
    );
    let mut r3 = unconnected_receiver(2, "e");
    assert_eq!(
        disconnect_from(&mut s, &mut r3),
        Err(invalid(ChannelState::ConnectedReceiver, ChannelState::ReceiverNotConnected))
    );
    let mut s3 = unconnected_sender(2, "f");
    assert_eq!(
        disconnect_from(&mut s, &mut s3),
        Err(invalid(ChannelState::ConnectedReceiver, ChannelState::SenderNotConnected))
    );
    assert_eq!(
        disconnect_from(&mut r, &mut s3),
        Err(invalid(ChannelState::ConnectedSender, ChannelState::SenderNotConnected))
    );
}

#[test]
fn sink_input_id_after_connect() {
    let (_source_task, mut source_out) = source::new("Source", 20, Box::new(DummySource {}));
    let mut sink_task = sink::new("Sink", Box::new(DummySink {}));
    assert!(sink_task.get_input_id(ReceiverChannelId(0)).is_none());
    assert!(sink_task.connect(&mut source_out).is_ok());
    let (id, name) = sink_task.get_input_id(ReceiverChannelId(0)).unwrap();
    assert_eq!(id, ChannelId { sender_id: SenderChannelId(0), receiver_id: ReceiverChannelId(0) });
    assert_eq!(name.0, "Source");
    assert!(sink_task.get_input_id(ReceiverChannelId(1)).is_none());
    assert_eq!(sink_task.input_count(), 1);
    assert_eq!(sink_task.output_count(), 0);
    assert_eq!(sink_task.name(), "Sink");
    assert_eq!(sink_task.get_rx_count(ReceiverChannelId(0)), 0);
    assert_eq!(sink_task.get_rx_count(ReceiverChannelId(3)), 0);
    // a second connect of the same sink fails
    let (_s2, mut out2) = source::new("Other", 20, Box::new(DummySource {}));
    assert_eq!(
        sink_task.connect(&mut out2),
        Err(invalid(ChannelState::ReceiverNotConnected, ChannelState::ConnectedReceiver))
    );
}

#[test]
fn source_task_counts() {
    let (mut source_task, out) = source::new("Src", 8, Box::new(DummySource {}));
    assert_eq!(source_task.input_count(), 0);
    assert_eq!(source_task.output_count(), 1);
    assert_eq!(source_task.get_tx_count(SenderChannelId(0)), 0);
    assert_eq!(source_task.get_tx_count(SenderChannelId(1)), 0);
    assert!(source_task.input_id(ReceiverChannelId(0)).is_none());
    let mut stop = false;
    source_task.execute(&mut stop);
    assert!(!stop);
    assert_eq!(ids(&out).0, ChannelState::SenderNotConnected);
}

#[test]
fn lossy_queue_round_trip() {
    let (mut tx, mut rx) = new_channel::<Message<usize, &'static str>>(10);
    assert_eq!(tx.seqno(), 0);
    put_value(&mut tx, Message::Value(5));
    put_value(&mut tx, Message::Value(6));
    assert_eq!(tx.seqno(), 2);
    assert_eq!(rx.seqno(), 2);
    let got = receiver_take_all(&mut rx);
    let values: Vec<usize> = got.iter().filter_map(|m| if let Message::Value(v) = m { Some(*v) } else { None }).collect();
    assert_eq!(values, vec![5, 6]);
    assert!(receiver_take_all(&mut rx).is_empty());
}

struct Pass {}
impl acto_rs::elem::filter::Filter for Pass {
    type InputValue = usize;
    type InputError = &'static str;
    type OutputValue = usize;
    type OutputError = &'static str;
    fn process(&mut self, input: &mut Cw, output: &mut Sender<Message<usize, &'static str>>, _stop: &mut bool) {
        if let ChannelWrapper::ConnectedReceiver(_, rx, _) = input {
            for m in receiver_take_all(rx) {
                put_value(output, m);
            }
        }
    }
}

#[test]
fn filter_forwards_and_counts() {
    let (_src, mut src_out) = source::new("Src", 8, Box::new(DummySource {}));
    let (mut filter_task, _filter_out) = acto_rs::elem::filter::new("Flt", 8, Box::new(Pass {}));
    assert!(filter_task.connect(&mut src_out).is_ok());
    assert_eq!(filter_task.get_rx_count(ReceiverChannelId(0)), 0);
    let mut stop = false;
    filter_task.execute(&mut stop);
    assert_eq!(filter_task.get_tx_count(SenderChannelId(0)), 0);
    assert_eq!(filter_task.output_channel_pos(SenderChannelId(1)).0, 0);
    assert!(filter_task.disconnect(&mut src_out).is_ok());
    assert!(filter_task.input_id(ReceiverChannelId(0)).is_none());
}

struct Split {}
impl YSplit for Split {
    type InputValue = usize;
    type InputError = &'static str;
    type OutputValueA = usize;
    type OutputErrorA = &'static str;
    type OutputValueB = usize;
    type OutputErrorB = &'static str;
    fn process(&mut self, _i: &mut Cw, a: &mut Sender<Message<usize, &'static str>>, _b: &mut Sender<Message<usize, &'static str>>, _s: &mut bool) {
        put_value(a, Message::Value(1));
    }
}

#[test]
fn ysplit_outputs() {
    let (mut task, out_a, out_b) = ysplit::new("Y", 4, 4, Box::new(Split {}));
    assert_eq!(ids(&out_a), (ChannelState::SenderNotConnected, Some(ChannelId { sender_id: SenderChannelId(0), receiver_id: ReceiverChannelId(usize::MAX) }), "Y".to_string()));
    assert_eq!(ids(&out_b).1.unwrap().sender_id, SenderChannelId(1));
    assert_eq!(task.output_count(), 2);
    let mut stop = false;
    task.execute(&mut stop);
    assert_eq!(task.get_tx_count(SenderChannelId(0)), 1);
    assert_eq!(task.get_tx_count(SenderChannelId(1)), 0);
    assert_eq!(task.get_tx_count(SenderChannelId(2)), 0);
}

struct Merge {}
impl YMerge for Merge {
    type InputValueA = usize;
    type InputErrorA = &'static str;
    type InputValueB = usize;
    type InputErrorB = &'static str;
    type OutputValue = usize;
    type OutputError = &'static str;
    fn process(&mut self, _a: &mut Cw, _b: &mut Cw, _o: &mut Sender<Message<usize, &'static str>>, _s: &mut bool) {}
}

#[test]
fn ymerge_connects_each_input() {
    let (mut task, _out) = ymerge::new("M", 4, Box::new(Merge {}));
    let (_s1, mut o1) = source::new("A", 4, Box::new(DummySource {}));
    let (_s2, mut o2) = source::new("B", 4, Box::new(DummySource {}));
    assert_eq!(task.input_count(), 2);
    assert!(task.connect_a(&mut o1).is_ok());
    assert!(task.get_input_id(ReceiverChannelId(1)).is_none());
    assert!(task.connect_b(&mut o2).is_ok());
    assert_eq!(task.get_input_id(ReceiverChannelId(0)).unwrap().1 .0, "A");
    let (id_b, name_b) = task.get_input_id(ReceiverChannelId(1)).unwrap();
    assert_eq!(name_b.0, "B");
    assert_eq!(id_b.receiver_id, ReceiverChannelId(1));
    assert!(task.get_input_id(ReceiverChannelId(2)).is_none());
    assert!(task.disconnect_a(&mut o1).is_ok());
    assert!(task.get_input_id(ReceiverChannelId(0)).is_none());
    assert!(task.disconnect_b(&mut o2).is_ok());
}

struct Gath {}
impl Gather for Gath {
    type InputValue = usize;
    type InputError = &'static str;
    type OutputValue = usize;
    type OutputError = &'static str;
    fn process(&mut self, _i: &mut Vec<Cw>, _o: &mut Sender<Message<usize, &'static str>>, _s: &mut bool) {}
}

#[test]
fn gather_numbered_inputs() {
    let (mut task, _out) = gather::new("G", 4, Box::new(Gath {}), 3);
    assert_eq!(task.input_count(), 3);
    let (_s, mut o) = source::new("S", 4, Box::new(DummySource {}));
    assert!(task.connect(ReceiverChannelId(2), &mut o).is_ok());
    let (id, name) = task.get_input_id(ReceiverChannelId(2)).unwrap();
    assert_eq!(id, ChannelId { sender_id: SenderChannelId(0), receiver_id: ReceiverChannelId(2) });
    assert_eq!(name.0, "S");
    assert!(task.get_input_id(ReceiverChannelId(0)).is_none());
    assert!(task.get_input_id(ReceiverChannelId(5)).is_none());
    assert_eq!(task.get_rx_count(ReceiverChannelId(5)), 0);
    assert!(task.disconnect(ReceiverChannelId(2), &mut o).is_ok());
}

struct Scat {}
impl Scatter for Scat {
    type InputValue = usize;
    type InputError = &'static str;
    type OutputValue = usize;
    type OutputError = &'static str;
    fn process(&mut self, _i: &mut Cw, o: &mut Vec<Sender<Message<usize, &'static str>>>, _s: &mut bool) {
        for tx in o.iter_mut() {
            put_value(tx, Message::Value(9));
        }
    }
}

#[test]
fn scatter_numbered_outputs() {
    let (mut task, outs) = scatter::new("Sc", 4, Box::new(Scat {}), 3);
    assert_eq!(outs.len(), 3);
    for (i, o) in outs.iter().enumerate() {
        assert_eq!(ids(o).1.unwrap().sender_id, SenderChannelId(i));
        assert_eq!(ids(o).2, "Sc");
    }
    assert_eq!(task.output_count(), 3);
    let mut stop = false;
    task.execute(&mut stop);
    assert_eq!(task.get_tx_count(SenderChannelId(2)), 1);
    assert_eq!(task.get_tx_count(SenderChannelId(3)), 0);
}
