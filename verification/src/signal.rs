//! The change signal: a generation-stamped event with no payload.
//!
//! Every notification moves the signal to the next generation. A waiter
//! remembers the generation it last observed and is owed a wakeup exactly when
//! the signal has moved on since. Several notifications between two
//! observations therefore collapse into one wakeup, and a notification that
//! arrives while a waiter is busy is still seen when it next waits.

use vstd::prelude::*;

verus! {

/// The generation that follows `generation`; the counter wraps at the top of
/// its range.
pub open spec fn next_generation(generation: u64) -> u64 {
    if generation == u64::MAX {
        0
    } else {
        (generation + 1) as u64
    }
}

/// The generation reached from `generation` by `count` notifications.
pub open spec fn generation_after(generation: u64, count: nat) -> u64
    decreases count,
{
    if count == 0 {
        generation
    } else {
        next_generation(generation_after(generation, (count - 1) as nat))
    }
}

/// The "document changed" event source shared by all sessions.
#[derive(Clone, Copy, Debug, PartialEq, Eq, Structural)]
pub struct ChangeSignal {
    pub generation: u64,
}

impl ChangeSignal {
    /// The signal as it is after one more notification.
    pub open spec fn after_notify(self) -> ChangeSignal {
        ChangeSignal { generation: next_generation(self.generation) }
    }

    /// The signal as it is after `count` more notifications.
    pub open spec fn after_notifications(self, count: nat) -> ChangeSignal {
        ChangeSignal { generation: generation_after(self.generation, count) }
    }

    /// A signal on which nothing has been notified yet.
    pub fn new() -> (signal: ChangeSignal)
        ensures
            signal.generation == 0,
    {
        ChangeSignal { generation: 0 }
    }

    /// Records that the document changed. Cannot fail.
    pub fn notify(&mut self)
        ensures
            *final(self) == old(self).after_notify(),
    {
        if self.generation == u64::MAX {
            self.generation = 0;
        } else {
            self.generation = self.generation + 1;
        }
    }

    /// The current generation.
    pub fn generation(&self) -> (generation: u64)
        ensures
            generation == self.generation,
    {
        self.generation
    }
}

/// One notification always changes the generation.
pub proof fn notification_changes_generation(signal: ChangeSignal)
    ensures
        signal.after_notify().generation != signal.generation,
{
}

/// Until the counter has gone once round its whole range, any positive number
/// of notifications leaves the signal on a generation other than the one it
/// started from.
pub proof fn notifications_change_generation(signal: ChangeSignal, count: nat)
    requires
        0 < count <= u64::MAX,
    ensures
        signal.after_notifications(count).generation != signal.generation,
{
    generation_after_is_modular(signal.generation, count);
}

/// `count` notifications advance the generation by `count`, modulo the size of
/// the counter's range.
pub proof fn generation_after_is_modular(generation: u64, count: nat)
    ensures
        generation_after(generation, count) as int == (generation + count) % 0x1_0000_0000_0000_0000,
    decreases count,
{
    if count > 0 {
        generation_after_is_modular(generation, (count - 1) as nat);
    }
}

} // verus!
