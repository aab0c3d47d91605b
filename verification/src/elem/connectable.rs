//! Connecting and disconnecting the two ends of a channel.

use crate::{
    ActualChannelState, ChannelId, ChannelState, ChannelWrapper, Error, ExpectedChannelState,
    ReceiverChannelId, ReceiverName,
};
use vstd::prelude::*;

verus! {

/// The error for an end found in `actual` where `expected` was needed.
pub open spec fn invalid_state(expected: ChannelState, actual: ChannelState) -> Error {
    Error::InvalidChannelState(ExpectedChannelState(expected), ActualChannelState(actual))
}

/// The ends `(receiver, sender)` after the unconnected receiver end `rcv`
/// takes over the queue of the unconnected sender end `snd`; or the error
/// when either end is in another state (the receiver end is checked first).
pub open spec fn connect_outcome<V: Send, E: Send>(
    rcv: ChannelWrapper<V, E>,
    snd: ChannelWrapper<V, E>,
) -> Result<(ChannelWrapper<V, E>, ChannelWrapper<V, E>), Error> {
    match rcv {
        ChannelWrapper::ReceiverNotConnected(rid, rname) => match snd {
            ChannelWrapper::SenderNotConnected(sid, rx, sname) => {
                let id = ChannelId { sender_id: sid, receiver_id: rid };
                Ok((ChannelWrapper::ConnectedReceiver(id, rx, sname), ChannelWrapper::ConnectedSender(id, rname)))
            },
            _ => Err(invalid_state(ChannelState::SenderNotConnected, snd.spec_state())),
        },
        _ => Err(invalid_state(ChannelState::ReceiverNotConnected, rcv.spec_state())),
    }
}

/// The ends `(receiver, sender)` after the connected receiver end `rcv`
/// hands its queue back to the connected sender end `snd`; or the error when
/// either end is in another state (the sender end is checked first). The
/// receiver end takes its index from the sender end's channel id, the sender
/// end from the receiver end's.
pub open spec fn disconnect_outcome<V: Send, E: Send>(
    rcv: ChannelWrapper<V, E>,
    snd: ChannelWrapper<V, E>,
) -> Result<(ChannelWrapper<V, E>, ChannelWrapper<V, E>), Error> {
    match snd {
        ChannelWrapper::ConnectedSender(snd_id, rname) => match rcv {
            ChannelWrapper::ConnectedReceiver(rcv_id, rx, sname) => Ok(
                (
                    ChannelWrapper::ReceiverNotConnected(snd_id.receiver_id, rname),
                    ChannelWrapper::SenderNotConnected(rcv_id.sender_id, rx, sname),
                ),
            ),
            _ => Err(invalid_state(ChannelState::ConnectedReceiver, rcv.spec_state())),
        },
        _ => Err(invalid_state(ChannelState::ConnectedSender, snd.spec_state())),
    }
}

/// Swaps the two ends of an outcome.
pub open spec fn swap_outcome<V: Send, E: Send>(
    r: Result<(ChannelWrapper<V, E>, ChannelWrapper<V, E>), Error>,
) -> Result<(ChannelWrapper<V, E>, ChannelWrapper<V, E>), Error> {
    match r {
        Ok((a, b)) => Ok((b, a)),
        Err(e) => Err(e),
    }
}

/// The ends `(me, to)` after connecting `me` to `to`, whichever of the two
/// is the receiver end; or the error.
pub open spec fn connect_to_outcome<V: Send, E: Send>(
    me: ChannelWrapper<V, E>,
    to: ChannelWrapper<V, E>,
) -> Result<(ChannelWrapper<V, E>, ChannelWrapper<V, E>), Error> {
    match me {
        ChannelWrapper::ReceiverNotConnected(..) => match to {
            ChannelWrapper::SenderNotConnected(..) => connect_outcome(me, to),
            _ => Err(invalid_state(ChannelState::SenderNotConnected, to.spec_state())),
        },
        ChannelWrapper::ConnectedReceiver(..) => Err(
            invalid_state(ChannelState::ReceiverNotConnected, ChannelState::ConnectedReceiver),
        ),
        ChannelWrapper::SenderNotConnected(..) => match to {
            ChannelWrapper::ReceiverNotConnected(..) => swap_outcome(connect_outcome(to, me)),
            _ => Err(invalid_state(ChannelState::ReceiverNotConnected, to.spec_state())),
        },
        ChannelWrapper::ConnectedSender(..) => Err(
            invalid_state(ChannelState::SenderNotConnected, ChannelState::ConnectedSender),
        ),
    }
}

/// The ends `(me, from)` after disconnecting `me` from `from`, whichever of
/// the two is the receiver end; or the error. A connected sender end asked to
/// disconnect from another connected sender end reports that a connected
/// sender end was expected and an unconnected one found.
pub open spec fn disconnect_from_outcome<V: Send, E: Send>(
    me: ChannelWrapper<V, E>,
    from: ChannelWrapper<V, E>,
) -> Result<(ChannelWrapper<V, E>, ChannelWrapper<V, E>), Error> {
    match me {
        ChannelWrapper::ConnectedReceiver(..) => match from {
            ChannelWrapper::ConnectedSender(..) => disconnect_outcome(me, from),
            _ => Err(invalid_state(ChannelState::ConnectedSender, from.spec_state())),
        },
        ChannelWrapper::ConnectedSender(..) => match from {
            ChannelWrapper::ConnectedReceiver(..) => swap_outcome(disconnect_outcome(from, me)),
            ChannelWrapper::ConnectedSender(..) => Err(
                invalid_state(ChannelState::ConnectedSender, ChannelState::SenderNotConnected),
            ),
            _ => Err(invalid_state(ChannelState::ConnectedReceiver, from.spec_state())),
        },
        ChannelWrapper::ReceiverNotConnected(..) => Err(
            invalid_state(ChannelState::ConnectedReceiver, ChannelState::ReceiverNotConnected),
        ),
        ChannelWrapper::SenderNotConnected(..) => Err(
            invalid_state(ChannelState::ConnectedSender, ChannelState::SenderNotConnected),
        ),
    }
}

/// `res`, `a1` and `b1` are what an operation with the spec outcome
/// `outcome` on the ends `a0` and `b0` returns and leaves behind: on success
/// both ends are replaced, on an error both are left as they were.
pub open spec fn applies<V: Send, E: Send>(
    outcome: Result<(ChannelWrapper<V, E>, ChannelWrapper<V, E>), Error>,
    a0: ChannelWrapper<V, E>,
    b0: ChannelWrapper<V, E>,
    a1: ChannelWrapper<V, E>,
    b1: ChannelWrapper<V, E>,
    res: Result<(), Error>,
) -> bool {
    match outcome {
        Ok((a, b)) => res is Ok && a1 == a && b1 == b,
        Err(e) => res == Err::<(), Error>(e) && a1 == a0 && b1 == b0,
    }
}

fn placeholder<V: Send, E: Send>() -> (res: ChannelWrapper<V, E>)
    ensures
        res matches ChannelWrapper::ReceiverNotConnected(id, name) && id == ReceiverChannelId(0) && name.0@
            == Seq::<char>::empty(),
{
    ChannelWrapper::ReceiverNotConnected(ReceiverChannelId(0), ReceiverName(String::new()))
}

fn invalid(expected: ChannelState, actual: ChannelState) -> (res: Error)
    ensures
        res == invalid_state(expected, actual),
{
    Error::InvalidChannelState(ExpectedChannelState(expected), ActualChannelState(actual))
}

/// Connects the unconnected receiver end `rcv` to the unconnected sender end
/// `snd`: the queue moves from `snd` into `rcv`, both ends record the same
/// channel id, and each keeps the other's name.
pub fn connect_receiver_to_sender<V: Send, E: Send>(
    rcv: &mut ChannelWrapper<V, E>,
    snd: &mut ChannelWrapper<V, E>,
) -> (res: Result<(), Error>)
    ensures
        applies(connect_outcome(*old(rcv), *old(snd)), *old(rcv), *old(snd), *final(rcv), *final(snd), res),
{
    let mut taken_rcv = placeholder();
    std::mem::swap(&mut taken_rcv, rcv);
    let mut taken_snd = placeholder();
    std::mem::swap(&mut taken_snd, snd);
    match taken_rcv {
        ChannelWrapper::ReceiverNotConnected(rid, rname) => match taken_snd {
            ChannelWrapper::SenderNotConnected(sid, rx, sname) => {
                let id = ChannelId { sender_id: sid, receiver_id: rid };
                *rcv = ChannelWrapper::ConnectedReceiver(id, rx, sname);
                *snd = ChannelWrapper::ConnectedSender(id, rname);
                Ok(())
            },
            other => {
                let actual = other.state();
                *rcv = ChannelWrapper::ReceiverNotConnected(rid, rname);
                *snd = other;
                Err(invalid(ChannelState::SenderNotConnected, actual))
            },
        },
        other => {
            let actual = other.state();
            *rcv = other;
            *snd = taken_snd;
            Err(invalid(ChannelState::ReceiverNotConnected, actual))
        },
    }
}

/// Disconnects the connected receiver end `rcv` from the connected sender end
/// `snd`: the queue moves back from `rcv` into `snd`, and both ends return to
/// their unconnected states.
pub fn disconnect_receiver_from_sender<V: Send, E: Send>(
    rcv: &mut ChannelWrapper<V, E>,
    snd: &mut ChannelWrapper<V, E>,
) -> (res: Result<(), Error>)
    ensures
        applies(disconnect_outcome(*old(rcv), *old(snd)), *old(rcv), *old(snd), *final(rcv), *final(snd), res),
{
    let mut taken_rcv = placeholder();
    std::mem::swap(&mut taken_rcv, rcv);
    let mut taken_snd = placeholder();
    std::mem::swap(&mut taken_snd, snd);
    match taken_snd {
        ChannelWrapper::ConnectedSender(snd_id, rname) => match taken_rcv {
            ChannelWrapper::ConnectedReceiver(rcv_id, rx, sname) => {
                *rcv = ChannelWrapper::ReceiverNotConnected(snd_id.receiver_id, rname);
                *snd = ChannelWrapper::SenderNotConnected(rcv_id.sender_id, rx, sname);
                Ok(())
            },
            other => {
                let actual = other.state();
                *rcv = other;
                *snd = ChannelWrapper::ConnectedSender(snd_id, rname);
                Err(invalid(ChannelState::ConnectedReceiver, actual))
            },
        },
        other => {
            let actual = other.state();
            *rcv = taken_rcv;
            *snd = other;
            Err(invalid(ChannelState::ConnectedSender, actual))
        },
    }
}

/// Connects two channel ends, whichever of them is the receiver end.
pub fn connect_to<V: Send, E: Send>(
    me: &mut ChannelWrapper<V, E>,
    to: &mut ChannelWrapper<V, E>,
) -> (res: Result<(), Error>)
    ensures
        applies(connect_to_outcome(*old(me), *old(to)), *old(me), *old(to), *final(me), *final(to), res),
{
    match me {
        ChannelWrapper::ReceiverNotConnected(..) => match to {
            ChannelWrapper::SenderNotConnected(..) => connect_receiver_to_sender(me, to),
            _ => Err(invalid(ChannelState::SenderNotConnected, to.state())),
        },
        ChannelWrapper::ConnectedReceiver(..) => Err(
            invalid(ChannelState::ReceiverNotConnected, ChannelState::ConnectedReceiver),
        ),
        ChannelWrapper::SenderNotConnected(..) => match to {
            ChannelWrapper::ReceiverNotConnected(..) => connect_receiver_to_sender(to, me),
            _ => Err(invalid(ChannelState::ReceiverNotConnected, to.state())),
        },
        ChannelWrapper::ConnectedSender(..) => Err(
            invalid(ChannelState::SenderNotConnected, ChannelState::ConnectedSender),
        ),
    }
}

/// Disconnects two connected channel ends, whichever of them is the receiver
/// end.
pub fn disconnect_from<V: Send, E: Send>(
    me: &mut ChannelWrapper<V, E>,
    from: &mut ChannelWrapper<V, E>,
) -> (res: Result<(), Error>)
    ensures
        applies(disconnect_from_outcome(*old(me), *old(from)), *old(me), *old(from), *final(me), *final(from), res),
{
    match me {
        ChannelWrapper::ConnectedReceiver(..) => match from {
            ChannelWrapper::ConnectedSender(..) => disconnect_receiver_from_sender(me, from),
            _ => Err(invalid(ChannelState::ConnectedSender, from.state())),
        },
        ChannelWrapper::ConnectedSender(..) => match from {
            ChannelWrapper::ConnectedReceiver(..) => disconnect_receiver_from_sender(from, me),
            ChannelWrapper::ConnectedSender(..) => Err(
                invalid(ChannelState::ConnectedSender, ChannelState::SenderNotConnected),
            ),
            _ => Err(invalid(ChannelState::ConnectedReceiver, from.state())),
        },
        ChannelWrapper::ReceiverNotConnected(..) => Err(
            invalid(ChannelState::ConnectedReceiver, ChannelState::ReceiverNotConnected),
        ),
        ChannelWrapper::SenderNotConnected(..) => Err(
            invalid(ChannelState::ConnectedSender, ChannelState::SenderNotConnected),
        ),
    }
}

/// An element with one input channel end.
pub trait Connectable {
    type InputValue: Send;
    type InputError: Send;

    /// The element's input channel end.
    spec fn spec_input_end(&self) -> ChannelWrapper<Self::InputValue, Self::InputError>;

    /// The element's input channel end, to be changed in place.
    fn input(&mut self) -> (res: &mut ChannelWrapper<Self::InputValue, Self::InputError>)
        ensures
            *res == old(self).spec_input_end(),
            final(self).spec_input_end() == *final(res),
    ;

    /// Connects the element's input to `other`.
    fn connect(&mut self, other: &mut ChannelWrapper<Self::InputValue, Self::InputError>) -> (res: Result<(), Error>)
        ensures
            applies(
                connect_to_outcome(old(self).spec_input_end(), *old(other)),
                old(self).spec_input_end(),
                *old(other),
                final(self).spec_input_end(),
                *final(other),
                res,
            ),
    {
        connect_to(self.input(), other)
    }

    /// Disconnects the element's input from `other`.
    fn disconnect(&mut self, other: &mut ChannelWrapper<Self::InputValue, Self::InputError>) -> (res: Result<(), Error>)
        ensures
            applies(
                disconnect_from_outcome(old(self).spec_input_end(), *old(other)),
                old(self).spec_input_end(),
                *old(other),
                final(self).spec_input_end(),
                *final(other),
                res,
            ),
    {
        disconnect_from(self.input(), other)
    }
}

/// An element with two input channel ends, `a` and `b`, of possibly
/// different types.
pub trait ConnectableY {
    type InputValueA: Send;
    type InputErrorA: Send;
    type InputValueB: Send;
    type InputErrorB: Send;

    /// The element's input channel end `a`.
    spec fn spec_input_a_end(&self) -> ChannelWrapper<Self::InputValueA, Self::InputErrorA>;

    /// The element's input channel end `b`.
    spec fn spec_input_b_end(&self) -> ChannelWrapper<Self::InputValueB, Self::InputErrorB>;

    /// The element's input channel end `a`, to be changed in place.
    fn input_a(&mut self) -> (res: &mut ChannelWrapper<Self::InputValueA, Self::InputErrorA>)
        ensures
            *res == old(self).spec_input_a_end(),
            final(self).spec_input_a_end() == *final(res),
            final(self).spec_input_b_end() == old(self).spec_input_b_end(),
    ;

    /// The element's input channel end `b`, to be changed in place.
    fn input_b(&mut self) -> (res: &mut ChannelWrapper<Self::InputValueB, Self::InputErrorB>)
        ensures
            *res == old(self).spec_input_b_end(),
            final(self).spec_input_b_end() == *final(res),
            final(self).spec_input_a_end() == old(self).spec_input_a_end(),
    ;

    /// Connects the element's input `a` to `other`.
    fn connect_a(&mut self, other: &mut ChannelWrapper<Self::InputValueA, Self::InputErrorA>) -> (res: Result<(), Error>)
        ensures
            applies(
                connect_to_outcome(old(self).spec_input_a_end(), *old(other)),
                old(self).spec_input_a_end(),
                *old(other),
                final(self).spec_input_a_end(),
                *final(other),
                res,
            ),
            final(self).spec_input_b_end() == old(self).spec_input_b_end(),
    {
        connect_to(self.input_a(), other)
    }

    /// Connects the element's input `b` to `other`.
    fn connect_b(&mut self, other: &mut ChannelWrapper<Self::InputValueB, Self::InputErrorB>) -> (res: Result<(), Error>)
        ensures
            applies(
                connect_to_outcome(old(self).spec_input_b_end(), *old(other)),
                old(self).spec_input_b_end(),
                *old(other),
                final(self).spec_input_b_end(),
                *final(other),
                res,
            ),
            final(self).spec_input_a_end() == old(self).spec_input_a_end(),
    {
        connect_to(self.input_b(), other)
    }

    /// Disconnects the element's input `a` from `other`.
    fn disconnect_a(&mut self, other: &mut ChannelWrapper<Self::InputValueA, Self::InputErrorA>) -> (res: Result<(), Error>)
        ensures
            applies(
                disconnect_from_outcome(old(self).spec_input_a_end(), *old(other)),
                old(self).spec_input_a_end(),
                *old(other),
                final(self).spec_input_a_end(),
                *final(other),
                res,
            ),
            final(self).spec_input_b_end() == old(self).spec_input_b_end(),
    {
        disconnect_from(self.input_a(), other)
    }

    /// Disconnects the element's input `b` from `other`.
    fn disconnect_b(&mut self, other: &mut ChannelWrapper<Self::InputValueB, Self::InputErrorB>) -> (res: Result<(), Error>)
        ensures
            applies(
                disconnect_from_outcome(old(self).spec_input_b_end(), *old(other)),
                old(self).spec_input_b_end(),
                *old(other),
                final(self).spec_input_b_end(),
                *final(other),
                res,
            ),
            final(self).spec_input_a_end() == old(self).spec_input_a_end(),
    {
        disconnect_from(self.input_b(), other)
    }
}

/// An element with a numbered list of input channel ends of one type.
pub trait ConnectableN {
    type InputValue: Send;
    type InputError: Send;

    /// How many input channel ends the element has.
    spec fn spec_input_count(&self) -> nat;

    /// The element's input channel end number `n`.
    spec fn spec_input_end(&self, n: int) -> ChannelWrapper<Self::InputValue, Self::InputError>;

    /// The element's input channel end number `n`, to be changed in place.
    fn input(&mut self, n: ReceiverChannelId) -> (res: &mut ChannelWrapper<Self::InputValue, Self::InputError>)
        requires
            n.0 < old(self).spec_input_count(),
        ensures
            *res == old(self).spec_input_end(n.0 as int),
            final(self).spec_input_end(n.0 as int) == *final(res),
            final(self).spec_input_count() == old(self).spec_input_count(),
            forall|i: int|
                0 <= i < old(self).spec_input_count() && i != n.0 ==> #[trigger] final(self).spec_input_end(i)
                    == old(self).spec_input_end(i),
    ;

    /// Connects the element's input number `n` to `other`.
    fn connect(&mut self, n: ReceiverChannelId, other: &mut ChannelWrapper<Self::InputValue, Self::InputError>) -> (res:
        Result<(), Error>)
        requires
            n.0 < old(self).spec_input_count(),
        ensures
            applies(
                connect_to_outcome(old(self).spec_input_end(n.0 as int), *old(other)),
                old(self).spec_input_end(n.0 as int),
                *old(other),
                final(self).spec_input_end(n.0 as int),
                *final(other),
                res,
            ),
            final(self).spec_input_count() == old(self).spec_input_count(),
            forall|i: int|
                0 <= i < old(self).spec_input_count() && i != n.0 ==> #[trigger] final(self).spec_input_end(i)
                    == old(self).spec_input_end(i),
    {
        connect_to(self.input(n), other)
    }

    /// Disconnects the element's input number `n` from `other`.
    fn disconnect(&mut self, n: ReceiverChannelId, other: &mut ChannelWrapper<Self::InputValue, Self::InputError>) -> (res:
        Result<(), Error>)
        requires
            n.0 < old(self).spec_input_count(),
        ensures
            applies(
                disconnect_from_outcome(old(self).spec_input_end(n.0 as int), *old(other)),
                old(self).spec_input_end(n.0 as int),
                *old(other),
                final(self).spec_input_end(n.0 as int),
                *final(other),
                res,
            ),
            final(self).spec_input_count() == old(self).spec_input_count(),
            forall|i: int|
                0 <= i < old(self).spec_input_count() && i != n.0 ==> #[trigger] final(self).spec_input_end(i)
                    == old(self).spec_input_end(i),
    {
        disconnect_from(self.input(n), other)
    }
}

/// An element with two numbered lists of input channel ends, `a` and `b`,
/// of possibly different types.
pub trait ConnectableYN {
    type InputValueA: Send;
    type InputErrorA: Send;
    type InputValueB: Send;
    type InputErrorB: Send;

    /// How many input channel ends list `a` has.
    spec fn spec_input_a_count(&self) -> nat;

    /// How many input channel ends list `b` has.
    spec fn spec_input_b_count(&self) -> nat;

    /// The element's input channel end number `n` of list `a`.
    spec fn spec_input_a_end(&self, n: int) -> ChannelWrapper<Self::InputValueA, Self::InputErrorA>;

    /// The element's input channel end number `n` of list `b`.
    spec fn spec_input_b_end(&self, n: int) -> ChannelWrapper<Self::InputValueB, Self::InputErrorB>;

    /// The element's input channel end number `n` of list `a`, to be changed
    /// in place; every other input end stays as it is.
    fn input_a(&mut self, n: ReceiverChannelId) -> (res: &mut ChannelWrapper<Self::InputValueA, Self::InputErrorA>)
        requires
            n.0 < old(self).spec_input_a_count(),
        ensures
            final(self).spec_input_a_count() == old(self).spec_input_a_count(),
            final(self).spec_input_b_count() == old(self).spec_input_b_count(),
            *res == old(self).spec_input_a_end(n.0 as int),
            final(self).spec_input_a_end(n.0 as int) == *final(res),
            forall|i: int| i != n.0 ==> #[trigger] final(self).spec_input_a_end(i) == old(self).spec_input_a_end(i),
            forall|i: int| #[trigger] final(self).spec_input_b_end(i) == old(self).spec_input_b_end(i),
    ;

    /// The element's input channel end number `n` of list `b`, to be changed
    /// in place; every other input end stays as it is.
    fn input_b(&mut self, n: ReceiverChannelId) -> (res: &mut ChannelWrapper<Self::InputValueB, Self::InputErrorB>)
        requires
            n.0 < old(self).spec_input_b_count(),
        ensures
            final(self).spec_input_a_count() == old(self).spec_input_a_count(),
            final(self).spec_input_b_count() == old(self).spec_input_b_count(),
            *res == old(self).spec_input_b_end(n.0 as int),
            final(self).spec_input_b_end(n.0 as int) == *final(res),
            forall|i: int| i != n.0 ==> #[trigger] final(self).spec_input_b_end(i) == old(self).spec_input_b_end(i),
            forall|i: int| #[trigger] final(self).spec_input_a_end(i) == old(self).spec_input_a_end(i),
    ;

    /// Connects the element's input number `n` of list `a` to `other`.
    fn connect_a(&mut self, n: ReceiverChannelId, other: &mut ChannelWrapper<Self::InputValueA, Self::InputErrorA>) -> (res: Result<(), Error>)
        requires
            n.0 < old(self).spec_input_a_count(),
        ensures
            final(self).spec_input_a_count() == old(self).spec_input_a_count(),
            final(self).spec_input_b_count() == old(self).spec_input_b_count(),
            applies(
                connect_to_outcome(old(self).spec_input_a_end(n.0 as int), *old(other)),
                old(self).spec_input_a_end(n.0 as int),
                *old(other),
                final(self).spec_input_a_end(n.0 as int),
                *final(other),
                res,
            ),
            forall|i: int| i != n.0 ==> #[trigger] final(self).spec_input_a_end(i) == old(self).spec_input_a_end(i),
            forall|i: int| #[trigger] final(self).spec_input_b_end(i) == old(self).spec_input_b_end(i),
    {
        connect_to(self.input_a(n), other)
    }

    /// Connects the element's input number `n` of list `b` to `other`.
    fn connect_b(&mut self, n: ReceiverChannelId, other: &mut ChannelWrapper<Self::InputValueB, Self::InputErrorB>) -> (res: Result<(), Error>)
        requires
            n.0 < old(self).spec_input_b_count(),
        ensures
            final(self).spec_input_a_count() == old(self).spec_input_a_count(),
            final(self).spec_input_b_count() == old(self).spec_input_b_count(),
            applies(
                connect_to_outcome(old(self).spec_input_b_end(n.0 as int), *old(other)),
                old(self).spec_input_b_end(n.0 as int),
                *old(other),
                final(self).spec_input_b_end(n.0 as int),
                *final(other),
                res,
            ),
            forall|i: int| i != n.0 ==> #[trigger] final(self).spec_input_b_end(i) == old(self).spec_input_b_end(i),
            forall|i: int| #[trigger] final(self).spec_input_a_end(i) == old(self).spec_input_a_end(i),
    {
        connect_to(self.input_b(n), other)
    }

    /// Disconnects the element's input number `n` of list `a` from `other`.
    fn disconnect_a(&mut self, n: ReceiverChannelId, other: &mut ChannelWrapper<Self::InputValueA, Self::InputErrorA>) -> (res: Result<(), Error>)
        requires
            n.0 < old(self).spec_input_a_count(),
        ensures
            final(self).spec_input_a_count() == old(self).spec_input_a_count(),
            final(self).spec_input_b_count() == old(self).spec_input_b_count(),
            applies(
                disconnect_from_outcome(old(self).spec_input_a_end(n.0 as int), *old(other)),
                old(self).spec_input_a_end(n.0 as int),
                *old(other),
                final(self).spec_input_a_end(n.0 as int),
                *final(other),
                res,
            ),
            forall|i: int| i != n.0 ==> #[trigger] final(self).spec_input_a_end(i) == old(self).spec_input_a_end(i),
            forall|i: int| #[trigger] final(self).spec_input_b_end(i) == old(self).spec_input_b_end(i),
    {
        disconnect_from(self.input_a(n), other)
    }

    /// Disconnects the element's input number `n` of list `b` from `other`.
    fn disconnect_b(&mut self, n: ReceiverChannelId, other: &mut ChannelWrapper<Self::InputValueB, Self::InputErrorB>) -> (res: Result<(), Error>)
        requires
            n.0 < old(self).spec_input_b_count(),
        ensures
            final(self).spec_input_a_count() == old(self).spec_input_a_count(),
            final(self).spec_input_b_count() == old(self).spec_input_b_count(),
            applies(
                disconnect_from_outcome(old(self).spec_input_b_end(n.0 as int), *old(other)),
                old(self).spec_input_b_end(n.0 as int),
                *old(other),
                final(self).spec_input_b_end(n.0 as int),
                *final(other),
                res,
            ),
            forall|i: int| i != n.0 ==> #[trigger] final(self).spec_input_b_end(i) == old(self).spec_input_b_end(i),
            forall|i: int| #[trigger] final(self).spec_input_a_end(i) == old(self).spec_input_a_end(i),
    {
        disconnect_from(self.input_b(n), other)
    }
}

/// `a` and `b` are the two ends of one connected channel: one is a connected
/// receiver end, the other a connected sender end, and both record the same
/// channel id.
pub open spec fn are_connected<V: Send, E: Send>(a: ChannelWrapper<V, E>, b: ChannelWrapper<V, E>) -> bool {
    match (a, b) {
        (ChannelWrapper::ConnectedReceiver(x, _, _), ChannelWrapper::ConnectedSender(y, _)) => x == y,
        (ChannelWrapper::ConnectedSender(x, _), ChannelWrapper::ConnectedReceiver(y, _, _)) => x == y,
        _ => false,
    }
}

/// Connecting succeeds exactly when one end is an unconnected receiver end and
/// the other an unconnected sender end, in either order; the two ends are then
/// the two ends of one connected channel.
pub proof fn lemma_connect_succeeds_iff_unconnected_pair<V: Send, E: Send>(
    me: ChannelWrapper<V, E>,
    to: ChannelWrapper<V, E>,
)
    ensures
        connect_to_outcome(me, to) is Ok <==> (
            (me.spec_state() == ChannelState::ReceiverNotConnected && to.spec_state() == ChannelState::SenderNotConnected)
            || (me.spec_state() == ChannelState::SenderNotConnected && to.spec_state() == ChannelState::ReceiverNotConnected)),
        connect_to_outcome(me, to) matches Ok((m, t)) ==> are_connected(m, t),
{
}

/// After an unconnected receiver end is connected to an unconnected sender
/// end, the receiver end reports the channel id made of the two indices and
/// the sender end's name as its input id.
pub proof fn lemma_connected_input_id<V: Send, E: Send>(
    me: ChannelWrapper<V, E>,
    to: ChannelWrapper<V, E>,
)
    requires
        me is ReceiverNotConnected,
        to is SenderNotConnected,
    ensures
        connect_to_outcome(me, to) is Ok,
        crate::spec_input_id_of(connect_to_outcome(me, to)->Ok_0.0) == Some(
            (ChannelId { sender_id: to->SenderNotConnected_0, receiver_id: me->ReceiverNotConnected_0 }, to->SenderNotConnected_2),
        ),
        crate::spec_input_id_of(connect_to_outcome(me, to)->Ok_0.1) is None,
{
}

/// Connecting two ends and then disconnecting them gives back both ends as
/// they were before.
pub proof fn lemma_connect_then_disconnect_restores<V: Send, E: Send>(
    me: ChannelWrapper<V, E>,
    to: ChannelWrapper<V, E>,
)
    requires
        connect_to_outcome(me, to) is Ok,
    ensures
        disconnect_from_outcome(connect_to_outcome(me, to)->Ok_0.0, connect_to_outcome(me, to)->Ok_0.1)
            == Ok::<(ChannelWrapper<V, E>, ChannelWrapper<V, E>), Error>((me, to)),
{
}

/// Disconnecting the two ends of one connected channel and then connecting
/// them again gives back both ends as they were before.
pub proof fn lemma_disconnect_then_connect_restores<V: Send, E: Send>(
    me: ChannelWrapper<V, E>,
    from: ChannelWrapper<V, E>,
)
    requires
        are_connected(me, from),
    ensures
        disconnect_from_outcome(me, from) is Ok,
        connect_to_outcome(disconnect_from_outcome(me, from)->Ok_0.0, disconnect_from_outcome(me, from)->Ok_0.1)
            == Ok::<(ChannelWrapper<V, E>, ChannelWrapper<V, E>), Error>((me, from)),
{
}

/// It does not matter which of the two ends asks to be connected: both
/// orders succeed or fail together, and on success leave the same ends.
pub proof fn lemma_connect_is_symmetric<V: Send, E: Send>(a: ChannelWrapper<V, E>, b: ChannelWrapper<V, E>)
    ensures
        connect_to_outcome(a, b) is Ok <==> connect_to_outcome(b, a) is Ok,
        connect_to_outcome(a, b) is Ok ==> connect_to_outcome(b, a) == swap_outcome(connect_to_outcome(a, b)),
{
}

/// It does not matter which of the two ends asks to be disconnected: both
/// orders succeed or fail together, and on success leave the same ends.
pub proof fn lemma_disconnect_is_symmetric<V: Send, E: Send>(a: ChannelWrapper<V, E>, b: ChannelWrapper<V, E>)
    ensures
        disconnect_from_outcome(a, b) is Ok <==> disconnect_from_outcome(b, a) is Ok,
        disconnect_from_outcome(a, b) is Ok ==> disconnect_from_outcome(b, a) == swap_outcome(
            disconnect_from_outcome(a, b),
        ),
{
}

/// Disconnecting succeeds exactly on one connected receiver end and one
/// connected sender end, in either order.
pub proof fn lemma_disconnect_succeeds_iff_connected_pair<V: Send, E: Send>(
    me: ChannelWrapper<V, E>,
    from: ChannelWrapper<V, E>,
)
    ensures
        disconnect_from_outcome(me, from) is Ok <==> (
            (me.spec_state() == ChannelState::ConnectedReceiver && from.spec_state() == ChannelState::ConnectedSender)
            || (me.spec_state() == ChannelState::ConnectedSender && from.spec_state() == ChannelState::ConnectedReceiver)),
{
}

/// An end that has been connected refuses to be connected again, to any end,
/// until it is disconnected.
pub proof fn lemma_connected_end_refuses_connect<V: Send, E: Send>(
    me: ChannelWrapper<V, E>,
    to: ChannelWrapper<V, E>,
    other: ChannelWrapper<V, E>,
)
    requires
        connect_to_outcome(me, to) is Ok,
    ensures
        connect_to_outcome(connect_to_outcome(me, to)->Ok_0.0, other) is Err,
        connect_to_outcome(other, connect_to_outcome(me, to)->Ok_0.0) is Err,
        connect_to_outcome(connect_to_outcome(me, to)->Ok_0.1, other) is Err,
        connect_to_outcome(other, connect_to_outcome(me, to)->Ok_0.1) is Err,
{
}

} // verus!
