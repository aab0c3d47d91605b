//! The message, schedule and channel-end types of the single-input element
//! interface, where each input is an optional identified receiver.

use crate::channel_id::{id_chars, id_text};
use lossyq::spsc::Receiver;
use vstd::prelude::*;

verus! {

/// What travels on a channel of this interface.
#[derive(Copy, Clone, Debug)]
pub enum Message<T: Send> {
    Empty,
    Value(T),
    /// Acknowledges the messages from the first to the second sequence number.
    Ack(usize, usize),
    /// An error at the given sequence number.
    Error(usize, &'static str),
}

/// When a task wants to run next.
#[derive(Copy, Clone, Debug, PartialEq, Eq, Structural)]
pub enum Schedule {
    Loop,
    OnMessage(u64),
    EndPlusUSec(u64),
    StartPlusUSec(u64),
    Stop,
}

/// Receives notice of the messages a task sent.
pub trait Reporter {
    fn message_sent(&mut self, channel_id: usize, last_msg_id: usize);
}

/// A runnable element of this interface.
pub trait Task {
    fn execute<R: Reporter>(&mut self, reporter: &mut R) -> Schedule;

    fn name(&self) -> &String;
}

/// Whether a channel end is an input or an output of its task.
#[derive(Copy, Clone, Debug, PartialEq, Eq, Structural)]
pub enum Direction {
    In,
    Out,
}

/// A channel end: the task it belongs to, its direction and its index.
#[derive(Clone, Debug)]
pub struct Id {
    task_name: String,
    dir: Direction,
    id: usize,
}

/// The channel-id direction with the same name.
pub open spec fn same_direction(dir: Direction) -> crate::channel_id::Direction {
    match dir {
        Direction::In => crate::channel_id::Direction::In,
        Direction::Out => crate::channel_id::Direction::Out,
    }
}

fn to_channel_direction(dir: Direction) -> (res: crate::channel_id::Direction)
    ensures
        res == same_direction(dir),
{
    match dir {
        Direction::In => crate::channel_id::Direction::In,
        Direction::Out => crate::channel_id::Direction::Out,
    }
}

impl Id {
    pub closed spec fn spec_task_name(&self) -> Seq<char> {
        self.task_name@
    }

    pub closed spec fn spec_dir(&self) -> Direction {
        self.dir
    }

    pub closed spec fn spec_id(&self) -> usize {
        self.id
    }

    /// The text form of the id: `Id:(<task name> <direction> <index>)`.
    pub fn to_text(&self) -> (res: String)
        ensures
            res@ == id_chars(self.spec_task_name(), same_direction(self.spec_dir()), self.spec_id() as nat),
    {
        id_text(&self.task_name, to_channel_direction(self.dir), self.id)
    }
}

/// An input of this interface: the receiving half of a queue and the id of
/// the channel end it was created for.
#[verifier::reject_recursive_types(Input)]
pub struct IdentifiedReceiver<Input: Send> {
    pub id: Id,
    pub input: Receiver<Message<Input>>,
}

/// The id of the channel end with index `id` and direction `dir` of the task
/// named `name`.
pub fn new_id(name: String, dir: Direction, id: usize) -> (res: Id)
    ensures
        res.spec_task_name() == name@,
        res.spec_dir() == dir,
        res.spec_id() == id,
{
    Id { task_name: name, dir, id }
}

} // verus!
