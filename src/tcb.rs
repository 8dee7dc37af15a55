//! Thread control blocks and the scheduler's state.
use vstd::prelude::*;

verus! {

/// Number of slots in the thread table, the idle thread's slot included.
pub const MAX_THREADS: usize = 32;

/// Error code: the table has no free slot.
pub const ERR_TOO_MANY_THREADS: u8 = 0x01;

/// Error code: the stack buffer holds fewer than `MIN_STACK_WORDS` words.
pub const ERR_STACK_TOO_SMALL: u8 = 0x02;

/// Error code: the caller is an unprivileged thread.
pub const ERR_NO_CREATE_PRIV: u8 = 0x03;

/// Status of a thread. `Idle` means runnable (or running), not the idle thread.
#[derive(Clone, Copy, Debug, PartialEq, Eq, Structural)]
pub enum ThreadStatus {
    Idle,
    Sleeping,
}

/// A single thread's state.
#[derive(Clone, Copy, Debug, PartialEq, Eq, Structural)]
pub struct ThreadControlBlock {
    /// Saved stack pointer of the thread (an address).
    pub sp: u32,
    /// 1 for a privileged thread, 0 for an unprivileged one.
    pub privileged: u32,
    /// Larger is higher.
    pub priority: u8,
    pub status: ThreadStatus,
    /// Ticks left before a sleeping thread becomes runnable again.
    pub sleep_ticks: u32,
}

impl ThreadControlBlock {
    /// The all-zero block that fills unused slots.
    pub fn empty() -> (r: ThreadControlBlock)
        ensures
            r == ThreadControlBlock::empty_spec(),
    {
        ThreadControlBlock { sp: 0, privileged: 0, priority: 0, status: ThreadStatus::Idle, sleep_ticks: 0 }
    }

    pub open spec fn empty_spec() -> ThreadControlBlock {
        ThreadControlBlock { sp: 0, privileged: 0, priority: 0, status: ThreadStatus::Idle, sleep_ticks: 0 }
    }

    /// Whether the scheduler may pick this thread.
    pub open spec fn runnable(self) -> bool {
        self.status != ThreadStatus::Sleeping
    }
}

} // verus!
