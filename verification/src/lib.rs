//! Typed elements (sources, filters, sinks, splits, merges, scatters,
//! gathers) connected by lossy queues into data processing pipelines.

pub mod bench;
pub mod bitset;
pub mod channel_id;
pub mod common;
pub mod connectable;
pub mod elem;
pub mod filter;
pub mod identified_receiver;
pub mod lossy;
pub mod sample;
pub mod scheduler;

use lossyq::spsc::{Receiver, Sender};
use vstd::prelude::*;

verus! {

/// The four states a channel end can be in.
#[derive(Copy, Clone, Debug, PartialEq, Eq, Structural)]
pub enum ChannelState {
    ReceiverNotConnected,
    ConnectedReceiver,
    SenderNotConnected,
    ConnectedSender,
}

/// The state an operation needed a channel end to be in.
#[derive(Copy, Clone, Debug, PartialEq, Eq, Structural)]
pub struct ExpectedChannelState(pub ChannelState);

/// The state a channel end was found in.
#[derive(Copy, Clone, Debug, PartialEq, Eq, Structural)]
pub struct ActualChannelState(pub ChannelState);

/// Errors of the library.
#[derive(Copy, Clone, Debug, PartialEq, Eq, Structural)]
pub enum Error {
    Busy,
    NonExistent,
    Stopping,
    AlreadyExists,
    InvalidChannelState(ExpectedChannelState, ActualChannelState),
}

#[derive(Copy, Clone, Debug, PartialEq, Eq, Structural)]
pub struct InclusiveMessageRange {
    pub from: usize,
    pub to: usize,
}

#[derive(Copy, Clone, Debug, PartialEq, Eq, Structural)]
pub struct ChannelPosition(pub usize);

/// What travels on a channel.
#[derive(Copy, Clone, Debug)]
pub enum Message<V: Send, E: Send> {
    Empty,
    Value(V),
    Ack(InclusiveMessageRange),
    Error(ChannelPosition, E),
}

#[derive(Copy, Clone, Debug, PartialEq, Eq, Structural)]
pub struct SenderChannelId(pub usize);

#[derive(Copy, Clone, Debug, PartialEq, Eq, Structural)]
pub struct ReceiverChannelId(pub usize);

/// Identifies a connected channel by the indices of its two ends.
#[derive(Copy, Clone, Debug, PartialEq, Eq, Structural)]
pub struct ChannelId {
    pub sender_id: SenderChannelId,
    pub receiver_id: ReceiverChannelId,
}

#[derive(Copy, Clone, Debug, PartialEq, Eq, Structural)]
pub struct DelayFromNowInUsec(pub usize);

/// When a task wants to run next.
#[derive(Copy, Clone, Debug, PartialEq, Eq, Structural)]
pub enum Schedule {
    Loop,
    OnMessage(ChannelId, ChannelPosition),
    DelayUsec(DelayFromNowInUsec),
    OnExternalEvent,
    Stop,
}

#[derive(Copy, Clone, Debug, PartialEq, Eq, Structural)]
pub struct AbsSchedulerTimeInUsec(pub usize);

#[derive(Copy, Clone, Debug, PartialEq, Eq, Structural)]
pub struct TaskId(pub usize);

#[derive(Copy, Clone, Debug, PartialEq, Eq, Structural)]
pub struct SenderId(pub usize);

/// The name of the task that owns the sending end of a channel.
#[derive(Clone, Debug)]
pub struct SenderName(pub String);

/// The name of the task that owns the receiving end of a channel.
#[derive(Clone, Debug)]
pub struct ReceiverName(pub String);

#[derive(Copy, Clone, Debug, PartialEq, Eq, Structural)]
pub struct ExtEventSeqno(pub usize);

#[derive(Copy, Clone, Debug, PartialEq, Eq, Structural)]
pub enum TaskState {
    Execute,
    TimeWait(AbsSchedulerTimeInUsec),
    MessageWait(SenderId, ChannelId, ChannelPosition),
    MessageWaitNeedSenderId(ChannelId, ChannelPosition),
    ExtEventWait(ExtEventSeqno),
    Stop,
}

#[derive(Copy, Clone, Debug, PartialEq, Eq, Structural)]
pub enum Event {
    User(Schedule),
    Execute,
    TimerExpired,
    MessageArrived,
    ExtTrigger,
    Delay,
}

/// One end of a channel, as an element holds it.
///
/// An input starts as `ReceiverNotConnected`, an output as
/// `SenderNotConnected` (which holds the queue's receiving half until a
/// receiver takes it over). Connecting moves the receiving half into the
/// input, which becomes `ConnectedReceiver`, and leaves `ConnectedSender`
/// behind in the output.
#[verifier::reject_recursive_types(V)]
#[verifier::reject_recursive_types(E)]
pub enum ChannelWrapper<V: Send, E: Send> {
    ReceiverNotConnected(ReceiverChannelId, ReceiverName),
    ConnectedReceiver(ChannelId, Receiver<Message<V, E>>, SenderName),
    SenderNotConnected(SenderChannelId, Receiver<Message<V, E>>, SenderName),
    ConnectedSender(ChannelId, ReceiverName),
}

impl<V: Send, E: Send> ChannelWrapper<V, E> {
    /// The state this channel end is in.
    pub open spec fn spec_state(&self) -> ChannelState {
        match self {
            ChannelWrapper::ReceiverNotConnected(..) => ChannelState::ReceiverNotConnected,
            ChannelWrapper::ConnectedReceiver(..) => ChannelState::ConnectedReceiver,
            ChannelWrapper::SenderNotConnected(..) => ChannelState::SenderNotConnected,
            ChannelWrapper::ConnectedSender(..) => ChannelState::ConnectedSender,
        }
    }

    /// The state this channel end is in.
    pub fn state(&self) -> (res: ChannelState)
        ensures
            res == self.spec_state(),
    {
        match self {
            ChannelWrapper::ReceiverNotConnected(..) => ChannelState::ReceiverNotConnected,
            ChannelWrapper::ConnectedReceiver(..) => ChannelState::ConnectedReceiver,
            ChannelWrapper::SenderNotConnected(..) => ChannelState::SenderNotConnected,
            ChannelWrapper::ConnectedSender(..) => ChannelState::ConnectedSender,
        }
    }
}

/// The channel id and sender name of a connected receiver end; `None` for an
/// end in any other state.
pub open spec fn spec_input_id_of<V: Send, E: Send>(cw: ChannelWrapper<V, E>) -> Option<(ChannelId, SenderName)> {
    match cw {
        ChannelWrapper::ConnectedReceiver(id, _, name) => Some((id, name)),
        _ => None,
    }
}

/// The channel id and sender name of a connected receiver end; `None` for an
/// end in any other state.
pub fn input_id_of<V: Send, E: Send>(cw: &ChannelWrapper<V, E>) -> (res: Option<(ChannelId, SenderName)>)
    ensures
        res == spec_input_id_of(*cw),
{
    match cw {
        ChannelWrapper::ConnectedReceiver(id, _, name) => Some((*id, SenderName(name.0.clone()))),
        _ => None,
    }
}

/// The number of items written to the queue of a connected receiver end, as
/// the queue reports it; 0 for an end in any other state.
pub fn rx_count_of<V: Send, E: Send>(cw: &ChannelWrapper<V, E>) -> (res: usize)
    ensures
        !(*cw is ConnectedReceiver) ==> res == 0,
        *cw matches ChannelWrapper::ConnectedReceiver(_, rx, _) ==> lossy::read_rx_seqno(rx, res),
        res <= usize::MAX / 16,
{
    match cw {
        ChannelWrapper::ConnectedReceiver(_, rx, _) => {
            let n = lossy::receiver_seqno(rx);
            proof {
                lossy::lemma_receiver_seqno_read(*rx, n);
            }
            n
        },
        _ => 0,
    }
}

/// The number of items written through a sending half so far, as the queue
/// reports it.
pub fn tx_count_of<V: Send, E: Send>(tx: &Sender<Message<V, E>>) -> (res: usize)
    ensures
        lossy::read_tx_seqno(*tx, res),
        res <= usize::MAX / 16,
{
    let n = lossy::sender_seqno(tx);
    proof {
        lossy::lemma_sender_seqno_read(*tx, n);
    }
    n
}

/// `b` is the channel end `a` with at most the contents of its queue
/// changed: same state, same ids and names.
pub open spec fn same_apart_from_queue<V: Send, E: Send>(a: ChannelWrapper<V, E>, b: ChannelWrapper<V, E>) -> bool {
    match (a, b) {
        (ChannelWrapper::ConnectedReceiver(i1, _, n1), ChannelWrapper::ConnectedReceiver(i2, _, n2)) => i1 == i2 && n1 == n2,
        (ChannelWrapper::SenderNotConnected(i1, _, n1), ChannelWrapper::SenderNotConnected(i2, _, n2)) => i1 == i2 && n1 == n2,
        _ => a == b,
    }
}

/// Takes the messages waiting on a connected receiver end (those written
/// since the previous read and not overwritten since); `None`, touching
/// nothing, for an end in any other state.
pub fn take_messages<V: Send, E: Send>(input: &mut ChannelWrapper<V, E>) -> (res: Option<Vec<Message<V, E>>>)
    ensures
        res is Some <==> *old(input) is ConnectedReceiver,
        same_apart_from_queue(*old(input), *final(input)),
        !(*old(input) is ConnectedReceiver) ==> *final(input) == *old(input),
{
    match input {
        ChannelWrapper::ConnectedReceiver(_, receiver, _) => Some(lossy::receiver_take_all(receiver)),
        _ => None,
    }
}

/// A runnable element of a pipeline, as the scheduler sees it.
pub trait Task {
    /// Runs the element once; the element sets `stop` to ask not to be run
    /// again.
    fn execute(&mut self, stop: &mut bool);

    fn name(&self) -> &String;

    fn input_count(&self) -> usize;

    fn output_count(&self) -> usize;

    fn input_id(&self, ch_id: ReceiverChannelId) -> Option<(ChannelId, SenderName)>;

    fn input_channel_pos(&self, ch_id: ReceiverChannelId) -> ChannelPosition;

    fn output_channel_pos(&self, ch_id: SenderChannelId) -> ChannelPosition;
}

} // verus!
