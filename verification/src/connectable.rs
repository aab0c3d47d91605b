//! Connecting inputs of the single-input element interface, where an input
//! is an optional identified receiver that moves from the sender's side to
//! the receiver's side.

use crate::channel_id::id_chars;
use crate::common::{same_direction, IdentifiedReceiver};
use vstd::prelude::*;

verus! {

/// The text of an identified receiver's channel id.
pub open spec fn receiver_id_chars<Input: Send>(r: IdentifiedReceiver<Input>) -> Seq<char> {
    id_chars(r.id.spec_task_name(), same_direction(r.id.spec_dir()), r.id.spec_id() as nat)
}

/// The message of an error: `already connected to <id>` when `me` holds a
/// receiver, `already connected` when `to` holds none; `None` when the
/// connection can be made.
pub open spec fn connect_error<Input: Send>(
    me: Option<IdentifiedReceiver<Input>>,
    to: Option<IdentifiedReceiver<Input>>,
) -> Option<Seq<char>> {
    match me {
        Some(v) => Some(seq!['a', 'l', 'r', 'e', 'a', 'd', 'y', ' ', 'c', 'o', 'n', 'n', 'e', 'c', 't', 'e', 'd', ' ', 't', 'o', ' '] + receiver_id_chars(v)),
        None => if to is None {
            Some(seq!['a', 'l', 'r', 'e', 'a', 'd', 'y', ' ', 'c', 'o', 'n', 'n', 'e', 'c', 't', 'e', 'd'])
        } else {
            None
        },
    }
}

/// The message of an error: `not connected` when `me` holds no receiver,
/// `not yet connected. has channel: <id>` when `from` still holds one;
/// `None` when the disconnection can be made.
pub open spec fn disconnect_error<Input: Send>(
    me: Option<IdentifiedReceiver<Input>>,
    from: Option<IdentifiedReceiver<Input>>,
) -> Option<Seq<char>> {
    if me is None {
        Some(seq!['n', 'o', 't', ' ', 'c', 'o', 'n', 'n', 'e', 'c', 't', 'e', 'd'])
    } else {
        match from {
            Some(v) => Some(
                seq![
                    'n', 'o', 't', ' ', 'y', 'e', 't', ' ', 'c', 'o', 'n', 'n', 'e', 'c', 't', 'e', 'd', '.', ' ',
                    'h', 'a', 's', ' ', 'c', 'h', 'a', 'n', 'n', 'e', 'l', ':', ' ',
                ] + receiver_id_chars(v),
            ),
            None => None,
        }
    }
}

/// `res`, `me1` and `to1` are what connecting `me0` to `to0` returns and
/// leaves behind: the error message of `connect_error` with nothing changed,
/// or success with the receiver moved from `to0` into `me1`.
pub open spec fn connect_applies<Input: Send>(
    me0: Option<IdentifiedReceiver<Input>>,
    to0: Option<IdentifiedReceiver<Input>>,
    me1: Option<IdentifiedReceiver<Input>>,
    to1: Option<IdentifiedReceiver<Input>>,
    res: Result<(), String>,
) -> bool {
    match connect_error(me0, to0) {
        Some(msg) => res matches Err(e) && e@ == msg && me1 == me0 && to1 == to0,
        None => res is Ok && me1 == to0 && to1 == me0,
    }
}

/// `res`, `me1` and `from1` are what disconnecting `me0` from `from0`
/// returns and leaves behind: the error message of `disconnect_error` with
/// nothing changed, or success with the receiver moved from `me0` into
/// `from1`.
pub open spec fn disconnect_applies<Input: Send>(
    me0: Option<IdentifiedReceiver<Input>>,
    from0: Option<IdentifiedReceiver<Input>>,
    me1: Option<IdentifiedReceiver<Input>>,
    from1: Option<IdentifiedReceiver<Input>>,
    res: Result<(), String>,
) -> bool {
    match disconnect_error(me0, from0) {
        Some(msg) => res matches Err(e) && e@ == msg && me1 == me0 && from1 == from0,
        None => res is Ok && me1 == from0 && from1 == me0,
    }
}

/// Connects the empty input `me` to `to`, which holds the receiver: the
/// receiver moves into `me`. On an error (see `connect_error`) nothing
/// changes.
pub fn connect_to<Input: Copy + Send>(
    me: &mut Option<IdentifiedReceiver<Input>>,
    to: &mut Option<IdentifiedReceiver<Input>>,
) -> (res: Result<(), String>)
    ensures
        connect_applies(*old(me), *old(to), *final(me), *final(to), res),
{
    match me {
        Some(v) => {
            let mut msg = String::from_str("already connected to ");
            let id = v.id.to_text();
            msg.append(id.as_str());
            proof {
                reveal_strlit("already connected to ");
                assert(msg@ =~= connect_error(*old(me), *old(to))->Some_0);
            }
            Err(msg)
        },
        None => {
            if to.is_none() {
                let msg = String::from_str("already connected");
                proof {
                    reveal_strlit("already connected");
                    assert(msg@ =~= connect_error(*old(me), *old(to))->Some_0);
                }
                Err(msg)
            } else {
                std::mem::swap(me, to);
                Ok(())
            }
        },
    }
}

/// Disconnects the input `me` from the empty `from`: the receiver moves back
/// into `from`. On an error (see `disconnect_error`) nothing changes.
pub fn disconnect_from<Input: Copy + Send>(
    me: &mut Option<IdentifiedReceiver<Input>>,
    from: &mut Option<IdentifiedReceiver<Input>>,
) -> (res: Result<(), String>)
    ensures
        disconnect_applies(*old(me), *old(from), *final(me), *final(from), res),
{
    if me.is_none() {
        let msg = String::from_str("not connected");
        proof {
            reveal_strlit("not connected");
            assert(msg@ =~= disconnect_error(*old(me), *old(from))->Some_0);
        }
        Err(msg)
    } else {
        match from {
            Some(v) => {
                let mut msg = String::from_str("not yet connected. has channel: ");
                let id = v.id.to_text();
                msg.append(id.as_str());
                proof {
                    reveal_strlit("not yet connected. has channel: ");
                    assert(msg@ =~= disconnect_error(*old(me), *old(from))->Some_0);
                }
                Err(msg)
            },
            None => {
                std::mem::swap(me, from);
                Ok(())
            },
        }
    }
}

/// Connecting an empty input to a holder of a receiver and then
/// disconnecting it again succeeds both times and gives back both sides as
/// they were.
pub proof fn lemma_connect_then_disconnect_restores<Input: Send>(
    me: Option<IdentifiedReceiver<Input>>,
    to: Option<IdentifiedReceiver<Input>>,
    me1: Option<IdentifiedReceiver<Input>>,
    to1: Option<IdentifiedReceiver<Input>>,
    r1: Result<(), String>,
    me2: Option<IdentifiedReceiver<Input>>,
    to2: Option<IdentifiedReceiver<Input>>,
    r2: Result<(), String>,
)
    requires
        connect_error(me, to) is None,
        connect_applies(me, to, me1, to1, r1),
        disconnect_applies(me1, to1, me2, to2, r2),
    ensures
        r1 is Ok,
        r2 is Ok,
        me2 == me,
        to2 == to,
{
}

/// A connection succeeds exactly when the input is empty and the other side
/// holds a receiver; a disconnection exactly when the input holds a receiver
/// and the other side is empty.
pub proof fn lemma_success_conditions<Input: Send>(
    a: Option<IdentifiedReceiver<Input>>,
    b: Option<IdentifiedReceiver<Input>>,
)
    ensures
        connect_error(a, b) is None <==> (a is None && b is Some),
        disconnect_error(a, b) is None <==> (a is Some && b is None),
{
}

/// An element with one input.
pub trait Connectable {
    type Input: Copy + Send;

    /// The element's input.
    spec fn spec_input(&self) -> Option<IdentifiedReceiver<Self::Input>>;

    /// The element's input, to be changed in place.
    fn input(&mut self) -> (res: &mut Option<IdentifiedReceiver<Self::Input>>)
        ensures
            *res == old(self).spec_input(),
            final(self).spec_input() == *final(res),
    ;

    /// Connects the element's input to `other`.
    fn connect(&mut self, other: &mut Option<IdentifiedReceiver<Self::Input>>) -> (res: Result<(), String>)
        ensures
            connect_applies(old(self).spec_input(), *old(other), final(self).spec_input(), *final(other), res),
    {
        connect_to(self.input(), other)
    }

    /// Disconnects the element's input from `other`.
    fn disconnect(&mut self, other: &mut Option<IdentifiedReceiver<Self::Input>>) -> (res: Result<(), String>)
        ensures
            disconnect_applies(old(self).spec_input(), *old(other), final(self).spec_input(), *final(other), res),
    {
        disconnect_from(self.input(), other)
    }
}

/// An element with two inputs of possibly different types.
pub trait ConnectableY {
    type InputA: Copy + Send;
    type InputB: Copy + Send;

    /// The element's input `a`.
    spec fn spec_input_a(&self) -> Option<IdentifiedReceiver<Self::InputA>>;

    /// The element's input `b`.
    spec fn spec_input_b(&self) -> Option<IdentifiedReceiver<Self::InputB>>;

    /// The element's input `a`, to be changed in place.
    fn input_a(&mut self) -> (res: &mut Option<IdentifiedReceiver<Self::InputA>>)
        ensures
            *res == old(self).spec_input_a(),
            final(self).spec_input_a() == *final(res),
            final(self).spec_input_b() == old(self).spec_input_b(),
    ;

    /// The element's input `b`, to be changed in place.
    fn input_b(&mut self) -> (res: &mut Option<IdentifiedReceiver<Self::InputB>>)
        ensures
            *res == old(self).spec_input_b(),
            final(self).spec_input_b() == *final(res),
            final(self).spec_input_a() == old(self).spec_input_a(),
    ;

    /// Connects the element's input `a` to `other`.
    fn connect_a(&mut self, other: &mut Option<IdentifiedReceiver<Self::InputA>>) -> (res: Result<(), String>)
        ensures
            connect_applies(old(self).spec_input_a(), *old(other), final(self).spec_input_a(), *final(other), res),
            final(self).spec_input_b() == old(self).spec_input_b(),
    {
        connect_to(self.input_a(), other)
    }

    /// Connects the element's input `b` to `other`.
    fn connect_b(&mut self, other: &mut Option<IdentifiedReceiver<Self::InputB>>) -> (res: Result<(), String>)
        ensures
            connect_applies(old(self).spec_input_b(), *old(other), final(self).spec_input_b(), *final(other), res),
            final(self).spec_input_a() == old(self).spec_input_a(),
    {
        connect_to(self.input_b(), other)
    }

    /// Disconnects the element's input `a` from `other`.
    fn disconnect_a(&mut self, other: &mut Option<IdentifiedReceiver<Self::InputA>>) -> (res: Result<(), String>)
        ensures
            disconnect_applies(old(self).spec_input_a(), *old(other), final(self).spec_input_a(), *final(other), res),
            final(self).spec_input_b() == old(self).spec_input_b(),
    {
        disconnect_from(self.input_a(), other)
    }

    /// Disconnects the element's input `b` from `other`.
    fn disconnect_b(&mut self, other: &mut Option<IdentifiedReceiver<Self::InputB>>) -> (res: Result<(), String>)
        ensures
            disconnect_applies(old(self).spec_input_b(), *old(other), final(self).spec_input_b(), *final(other), res),
            final(self).spec_input_a() == old(self).spec_input_a(),
    {
        disconnect_from(self.input_b(), other)
    }
}

/// An element with numbered inputs of one type.
pub trait ConnectableN {
    type Input: Copy + Send;

    /// How many inputs the element has.
    spec fn spec_input_count(&self) -> nat;

    /// The element's input number `n`.
    spec fn spec_input(&self, n: int) -> Option<IdentifiedReceiver<Self::Input>>;

    /// The element's input number `n`, to be changed in place; the other
    /// inputs stay as they are.
    fn input(&mut self, n: usize) -> (res: &mut Option<IdentifiedReceiver<Self::Input>>)
        requires
            n < old(self).spec_input_count(),
        ensures
            final(self).spec_input_count() == old(self).spec_input_count(),
            *res == old(self).spec_input(n as int),
            final(self).spec_input(n as int) == *final(res),
            forall|i: int| i != n ==> #[trigger] final(self).spec_input(i) == old(self).spec_input(i),
    ;

    /// Connects the element's input number `n` to `other`.
    fn connect(&mut self, n: usize, other: &mut Option<IdentifiedReceiver<Self::Input>>) -> (res: Result<(), String>)
        requires
            n < old(self).spec_input_count(),
        ensures
            final(self).spec_input_count() == old(self).spec_input_count(),
            connect_applies(old(self).spec_input(n as int), *old(other), final(self).spec_input(n as int), *final(other), res),
            forall|i: int| i != n ==> #[trigger] final(self).spec_input(i) == old(self).spec_input(i),
    {
        connect_to(self.input(n), other)
    }

    /// Disconnects the element's input number `n` from `other`.
    fn disconnect(&mut self, n: usize, other: &mut Option<IdentifiedReceiver<Self::Input>>) -> (res: Result<(), String>)
        requires
            n < old(self).spec_input_count(),
        ensures
            final(self).spec_input_count() == old(self).spec_input_count(),
            disconnect_applies(old(self).spec_input(n as int), *old(other), final(self).spec_input(n as int), *final(other), res),
            forall|i: int| i != n ==> #[trigger] final(self).spec_input(i) == old(self).spec_input(i),
    {
        disconnect_from(self.input(n), other)
    }
}

} // verus!
