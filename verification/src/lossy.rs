//! The lossy single-producer single-consumer queue that carries messages
//! between the elements of a pipeline, and the trusted boundary to it.

use crate::sample::tick::Tick;
use crate::Message;
use lossyq::spsc::{Receiver, Sender};
use vstd::prelude::*;

verus! {

/// The sending half of a lossy queue. Opaque: what it holds is not modelled.
#[verifier::external_type_specification]
#[verifier::external_body]
#[verifier::reject_recursive_types(T)]
pub struct ExSender<T>(Sender<T>);

/// The receiving half of a lossy queue. Opaque: what it holds is not modelled.
#[verifier::external_type_specification]
#[verifier::external_body]
#[verifier::reject_recursive_types(T)]
pub struct ExReceiver<T>(Receiver<T>);

/// A queue of `size` slots can be allocated without the allocation size
/// overflowing: the queue keeps `2 * n + 1` slots of `Option<T>` and two index
/// vectors of `n` entries, where `n` is `size`, or 1 for a size of 0.
pub open spec fn queue_size_fits<T>(size: usize) -> bool {
    let n: int = if size == 0 { 1 } else { size as int };
    &&& (2 * n + 1) * vstd::layout::size_of::<Option<T>>() <= isize::MAX
    &&& n * vstd::layout::size_of::<usize>() <= isize::MAX
}

/// Whether a queue of `size` slots of `T` can be allocated without the
/// allocation size overflowing (see `queue_size_fits`), for callers that
/// must test it before making a queue.
pub fn queue_size_ok<T>(size: usize) -> (res: bool)
    ensures
        res == queue_size_fits::<T>(size),
{
    let n: usize = if size == 0 { 1 } else { size };
    let slot = core::mem::size_of::<Option<T>>();
    let word = core::mem::size_of::<usize>();
    let max: usize = isize::MAX as usize;
    let fits_slots: bool = if slot == 0 {
        true
    } else {
        match n.checked_mul(2) {
            None => {
                proof {
                    lemma_product_exceeds((2 * n + 1) as int, slot as int, max as int);
                }
                false
            },
            Some(d) => match d.checked_add(1) {
                None => {
                    proof {
                        lemma_product_exceeds((2 * n + 1) as int, slot as int, max as int);
                    }
                    false
                },
                Some(c) => match c.checked_mul(slot) {
                    None => false,
                    Some(x) => x <= max,
                },
            },
        }
    };
    let fits_words: bool = match n.checked_mul(word) {
        None => false,
        Some(x) => x <= max,
    };
    fits_slots && fits_words
}

proof fn lemma_product_exceeds(a: int, b: int, max: int)
    requires
        a > max,
        b >= 1,
        max >= 0,
    ensures
        a * b > max,
{
    assert(a * b >= a) by (nonlinear_arith)
        requires
            a >= 0,
            b >= 1,
    ;
}

/// Calls `lossyq::spsc::channel(size)`: a new queue with `size` slots (at
/// least one), returned as its two halves. Nothing is claimed of the halves,
/// which are opaque. `requires` leaves out the sizes for which the
/// allocations inside would exceed `isize::MAX` bytes and panic.
#[verifier::external_body]
pub(crate) fn new_channel<T: Send>(size: usize) -> (Sender<T>, Receiver<T>)
    requires
        queue_size_fits::<T>(size),
{
    lossyq::spsc::channel(size)
}

/// Calls `lossyq::spsc::Sender::seqno`: the number of items written to the
/// queue so far. Only the sender writes that counter, but the queue's state
/// behind the opaque sender is not modelled (and a name for it would need a
/// type parameter), so nothing is claimed of its value beyond its range: the
/// counter is kept shifted left by four bits in a `usize`.
#[verifier::external_body]
pub(crate) fn sender_seqno<T: Send>(sender: &Sender<T>) -> (res: usize)
    ensures
        res <= usize::MAX / 16,
{
    sender.seqno()
}

/// Calls `lossyq::spsc::Receiver::seqno`: the number of items written to the
/// queue so far, read from the receiving side. The counter is written by the
/// other half, so nothing is claimed of its value beyond its range: the
/// counter is kept shifted left by four bits in a `usize`.
#[verifier::external_body]
pub(crate) fn receiver_seqno<T: Send>(receiver: &Receiver<T>) -> (res: usize)
    ensures
        res <= usize::MAX / 16,
{
    receiver.seqno()
}

/// `tx` and `rx` are the sending and receiving halves of one and the same
/// queue of `size` slots: one call of `new_channel(size)` can give them back
/// together, so what is put through `tx` is what `rx` reads.
pub closed spec fn halves_of_one_queue<T: Send>(size: usize, tx: Sender<T>, rx: Receiver<T>) -> bool {
    call_ensures(new_channel::<T>, (size,), (tx, rx))
}

/// `n` is a sequence number that reading it from `rx` itself can give (see
/// `receiver_seqno`).
pub closed spec fn read_rx_seqno<T: Send>(rx: Receiver<T>, n: usize) -> bool {
    call_ensures(receiver_seqno::<T>, (&rx,), n)
}

/// `n` is a sequence number that reading it from `tx` itself can give (see
/// `sender_seqno`).
pub closed spec fn read_tx_seqno<T: Send>(tx: Sender<T>, n: usize) -> bool {
    call_ensures(sender_seqno::<T>, (&tx,), n)
}

/// What a call of `new_channel` gave back is one queue's two halves.
pub(crate) proof fn lemma_new_channel_halves<T: Send>(size: usize, tx: Sender<T>, rx: Receiver<T>)
    requires
        call_ensures(new_channel::<T>, (size,), (tx, rx)),
    ensures
        halves_of_one_queue(size, tx, rx),
{
}

/// What a call of `receiver_seqno` gave back is a reading of that half.
pub(crate) proof fn lemma_receiver_seqno_read<T: Send>(rx: Receiver<T>, n: usize)
    requires
        call_ensures(receiver_seqno::<T>, (&rx,), n),
    ensures
        read_rx_seqno(rx, n),
{
}

/// What a call of `sender_seqno` gave back is a reading of that half.
pub(crate) proof fn lemma_sender_seqno_read<T: Send>(tx: Sender<T>, n: usize)
    requires
        call_ensures(sender_seqno::<T>, (&tx,), n),
    ensures
        read_tx_seqno(tx, n),
{
}

/// Moves `value` into the slot that `pending` designates and leaves there
/// whatever the slot held before; it is the setter handed to
/// `lossyq::spsc::Sender::put`.
pub(crate) fn fill_slot<T>(slot: &mut Option<T>, pending: &mut Option<T>)
    ensures
        *final(slot) == *old(pending),
        *final(pending) == *old(slot),
{
    std::mem::swap(slot, pending);
}

/// The messages put through a sending half that carries `usize` values,
/// oldest first.
pub uninterp spec fn sent_usize(sender: Sender<Message<usize, &'static str>>) -> Seq<Message<usize, &'static str>>;

/// The messages put through a sending half that carries time stamps, oldest
/// first.
pub uninterp spec fn sent_tick(sender: Sender<Message<Tick, &'static str>>) -> Seq<Message<Tick, &'static str>>;

/// Calls `lossyq::spsc::Sender::put` with a setter that stores
/// `Some(value)` in the next slot of the queue: the source writes the setter
/// into exactly one slot and publishes it, so `value` is appended to what the
/// sender has put. The queue never blocks and may overwrite items the reader
/// has not taken; what the reader will see is not claimed. The result (the
/// sequence number before the write) is not claimed either.
#[verifier::external_body]
pub(crate) fn put_usize_message(
    sender: &mut Sender<Message<usize, &'static str>>,
    value: Message<usize, &'static str>,
) -> (res: usize)
    ensures
        sent_usize(*final(sender)) == sent_usize(*old(sender)).push(value),
{
    let mut pending = Some(value);
    sender.put(|slot| fill_slot(slot, &mut pending))
}

/// Calls `lossyq::spsc::Sender::put` on a sender of time stamps, as
/// `put_usize_message` does: `value` is appended to what the sender has put;
/// nothing else is claimed.
#[verifier::external_body]
pub(crate) fn put_tick_message(
    sender: &mut Sender<Message<Tick, &'static str>>,
    value: Message<Tick, &'static str>,
) -> (res: usize)
    ensures
        sent_tick(*final(sender)) == sent_tick(*old(sender)).push(value),
{
    let mut pending = Some(value);
    sender.put(|slot| fill_slot(slot, &mut pending))
}

/// Calls `lossyq::spsc::Receiver::iter` and collects what the iterator
/// yields: the items written since the previous read that were not
/// overwritten in between. Nothing is claimed of them.
#[verifier::external_body]
pub(crate) fn receiver_take_all<T: Send>(receiver: &mut Receiver<T>) -> Vec<T> {
    receiver.iter().collect()
}

} // verus!
