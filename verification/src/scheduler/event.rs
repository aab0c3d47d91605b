//! A notification counter that elements bump when something happens.

use vstd::prelude::*;

verus! {

/// The count after one more notification; it stays at `u64::MAX` once there.
pub open spec fn count_after_notify(count: u64) -> u64 {
    if count < u64::MAX {
        (count + 1) as u64
    } else {
        count
    }
}

/// The count after `n` more notifications, one at a time.
pub open spec fn count_after_notifications(count: u64, n: nat) -> u64
    decreases n,
{
    if n == 0 {
        count
    } else {
        count_after_notify(count_after_notifications(count, (n - 1) as nat))
    }
}

/// Counts the notifications it has received.
#[derive(Clone, Debug)]
pub struct Event {
    count: u64,
}

impl Event {
    /// How many notifications the event has received.
    pub closed spec fn spec_count(&self) -> u64 {
        self.count
    }

    /// An event with no notification yet.
    pub fn new() -> (res: Event)
        ensures
            res.spec_count() == 0,
    {
        Event { count: 0 }
    }

    /// Records one notification and returns the new count.
    pub fn notify(&mut self) -> (res: u64)
        ensures
            final(self).spec_count() == count_after_notify(old(self).spec_count()),
            res == final(self).spec_count(),
    {
        if self.count < u64::MAX {
            self.count = self.count + 1;
        }
        self.count
    }

    /// Records `n` notifications, one at a time.
    pub fn notify_times(&mut self, n: usize)
        ensures
            final(self).spec_count() == count_after_notifications(old(self).spec_count(), n as nat),
    {
        let mut i: usize = 0;
        while i < n
            invariant
                i <= n,
                self.spec_count() == count_after_notifications(old(self).spec_count(), i as nat),
            decreases n - i,
        {
            self.notify();
            i = i + 1;
        }
    }

    /// Whether more than `ticket` notifications have arrived, and how many
    /// have.
    pub fn ready(&self, ticket: u64) -> (res: (bool, u64))
        ensures
            res == (self.spec_count() > ticket, self.spec_count()),
    {
        (self.count > ticket, self.count)
    }
}

} // verus!
