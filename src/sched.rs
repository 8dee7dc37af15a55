//! The scheduler: its state, the selection policy and the tick handler.
use vstd::prelude::*;
use crate::tcb::{ThreadControlBlock, ThreadStatus, MAX_THREADS};

verus! {

/// Context-switching and thread state: one instance for the whole system.
///
/// `curr` and `next` are slots of `threads`: `curr` is the running thread,
/// `next` the one chosen to run. `None` stands for no thread (before the
/// first switch). A switch is pending while the two differ.
pub struct ThreadsState {
    pub curr: Option<usize>,
    pub next: Option<usize>,
    pub inited: bool,
    pub idx: usize,
    pub add_idx: usize,
    pub threads: [ThreadControlBlock; MAX_THREADS],
}

/// The mathematical value of a `ThreadsState`.
pub struct ThreadsView {
    pub curr: Option<usize>,
    pub next: Option<usize>,
    pub inited: bool,
    pub idx: usize,
    pub add_idx: usize,
    pub threads: Seq<ThreadControlBlock>,
}

impl View for ThreadsState {
    type V = ThreadsView;

    open spec fn view(&self) -> ThreadsView {
        ThreadsView {
            curr: self.curr,
            next: self.next,
            inited: self.inited,
            idx: self.idx,
            add_idx: self.add_idx,
            threads: self.threads@,
        }
    }
}

/// A slot that is `None` or a slot in use.
pub open spec fn slot_in_use(s: Option<usize>, add_idx: usize) -> bool {
    match s {
        Some(i) => i < add_idx,
        None => true,
    }
}

impl ThreadsView {
    /// Slot 0 is the idle thread; slots `1..add_idx` hold user threads and
    /// the selection always names a slot in use.
    pub open spec fn wf(self) -> bool {
        &&& self.threads.len() == MAX_THREADS
        &&& 1 <= self.add_idx <= MAX_THREADS
        &&& self.idx < self.add_idx
        &&& slot_in_use(self.curr, self.add_idx)
        &&& slot_in_use(self.next, self.add_idx)
    }

    /// The state with `tcb` appended at the first free slot.
    pub open spec fn push_thread(self, tcb: ThreadControlBlock) -> ThreadsView {
        ThreadsView {
            threads: self.threads.update(self.add_idx as int, tcb),
            add_idx: (self.add_idx + 1) as usize,
            ..self
        }
    }

    /// The state after one scheduling decision: sleepers aged, the best
    /// thread selected.
    pub open spec fn rescheduled(self) -> ThreadsView {
        let aged = aged_table(self.threads, self.add_idx as int);
        ThreadsView {
            threads: aged,
            idx: best_slot(aged, self.add_idx as int) as usize,
            next: Some(best_slot(aged, self.add_idx as int) as usize),
            ..self
        }
    }

    /// The state after a tick: nothing before initialisation; a new decision
    /// only when no switch is pending.
    pub open spec fn ticked(self) -> ThreadsView {
        if self.inited && self.curr == self.next {
            self.rescheduled()
        } else {
            self
        }
    }

    /// Whether a context switch is owed.
    pub open spec fn switch_pending(self) -> bool {
        self.curr != self.next
    }
}

/// A thread after one tick: a sleeper with ticks left loses one, a sleeper
/// with none left wakes; a runnable thread stays as it is.
pub open spec fn aged(t: ThreadControlBlock) -> ThreadControlBlock {
    if t.status == ThreadStatus::Sleeping {
        if t.sleep_ticks > 0 {
            ThreadControlBlock { sleep_ticks: (t.sleep_ticks - 1) as u32, ..t }
        } else {
            ThreadControlBlock { status: ThreadStatus::Idle, ..t }
        }
    } else {
        t
    }
}

/// The table with the user threads of slots `1..n` aged.
pub open spec fn aged_table(ts: Seq<ThreadControlBlock>, n: int) -> Seq<ThreadControlBlock> {
    Seq::new(ts.len(), |i: int| if 1 <= i < n { aged(ts[i]) } else { ts[i] })
}

/// The runnable user thread of highest priority among slots `1..n`, the
/// lowest slot among equals; 0 (the idle thread) when none is runnable.
pub open spec fn best_slot(ts: Seq<ThreadControlBlock>, n: int) -> int
    decreases n,
{
    if n <= 1 {
        0
    } else {
        let b = best_slot(ts, n - 1);
        if ts[n - 1].runnable() && (b == 0 || ts[n - 1].priority > ts[b].priority) {
            n - 1
        } else {
            b
        }
    }
}

impl ThreadsState {
    /// The state at program start: no thread, not initialised.
    pub fn new() -> (r: ThreadsState)
        ensures
            r@.wf(),
            r.curr.is_none(),
            r.next.is_none(),
            !r.inited,
            r.idx == 0,
            r.add_idx == 1,
            forall|i: int| 0 <= i < MAX_THREADS ==> #[trigger] r.threads@[i] == ThreadControlBlock::empty_spec(),
    {
        ThreadsState {
            curr: None,
            next: None,
            inited: false,
            idx: 0,
            add_idx: 1,
            threads: [ThreadControlBlock::empty(); MAX_THREADS],
        }
    }
}

/// Ages the sleeping user threads, then returns the slot of the thread to run.
pub fn get_next_thread_idx(state: &mut ThreadsState) -> (r: usize)
    requires
        old(state)@.wf(),
    ensures
        final(state)@ == (ThreadsView { threads: aged_table(old(state)@.threads, old(state).add_idx as int), ..old(state)@ }),
        r == best_slot(final(state)@.threads, old(state).add_idx as int),
        r < old(state).add_idx,
{
    let n: usize = state.add_idx;
    if n <= 1 {
        proof {
            assert(state@.threads =~= aged_table(old(state)@.threads, n as int));
        }
        return 0;
    }
    let mut i: usize = 1;
    while i < n
        invariant
            1 <= i <= n,
            n == state.add_idx,
            n <= MAX_THREADS,
            state@ == (ThreadsView { threads: state@.threads, ..old(state)@ }),
            state@.threads.len() == MAX_THREADS,
            forall|j: int| 0 <= j < MAX_THREADS ==> #[trigger] state@.threads[j] == if 1 <= j < i { aged(old(state)@.threads[j]) } else { old(state)@.threads[j] },
        decreases n - i,
    {
        let t: ThreadControlBlock = state.threads[i];
        if t.status == ThreadStatus::Sleeping {
            if t.sleep_ticks > 0 {
                state.threads[i] = ThreadControlBlock { sleep_ticks: t.sleep_ticks - 1, ..t };
            } else {
                state.threads[i] = ThreadControlBlock { status: ThreadStatus::Idle, ..t };
            }
        }
        i = i + 1;
    }
    proof {
        assert(state@.threads =~= aged_table(old(state)@.threads, n as int));
    }
    let ghost ts = state@.threads;
    let mut best: usize = 0;
    let mut k: usize = 1;
    while k < n
        invariant
            1 <= k <= n,
            n == state.add_idx,
            n <= MAX_THREADS,
            state@.threads == ts,
            ts.len() == MAX_THREADS,
            best == best_slot(ts, k as int),
            best < k,
        decreases n - k,
    {
        let t: ThreadControlBlock = state.threads[k];
        if t.status != ThreadStatus::Sleeping && (best == 0 || t.priority > state.threads[best].priority) {
            best = k;
        }
        k = k + 1;
    }
    best
}

/// Whether two selections name the same thread.
fn same_slot(a: Option<usize>, b: Option<usize>) -> (r: bool)
    ensures
        r == (a == b),
{
    match (a, b) {
        (Some(x), Some(y)) => x == y,
        (None, None) => true,
        _ => false,
    }
}

/// The tick handler, run from the SysTick exception or on a voluntary
/// yield. Once initialised, it makes a new scheduling decision unless a
/// switch is already pending, and returns whether PendSV must be pended.
#[allow(non_snake_case)]
pub fn SysTick(state: &mut ThreadsState) -> (pend: bool)
    requires
        old(state)@.wf(),
    ensures
        final(state)@ == old(state)@.ticked(),
        final(state)@.wf(),
        pend == (old(state).inited && final(state)@.switch_pending()),
{
    if !state.inited {
        return false;
    }
    if same_slot(state.curr, state.next) {
        let i: usize = get_next_thread_idx(state);
        state.idx = i;
        state.next = Some(i);
    }
    !same_slot(state.curr, state.next)
}

/// The bookkeeping of the PendSV context switch: stores the outgoing
/// thread's stack pointer in its block, makes the selected thread current,
/// and returns its saved stack pointer and its `privileged` word.
pub fn switch_context(state: &mut ThreadsState, outgoing_sp: u32) -> (r: (u32, u32))
    requires
        old(state)@.wf(),
        old(state).next.is_some(),
    ensures
        final(state)@ == (ThreadsView {
            curr: old(state).next,
            threads: match old(state).curr {
                Some(c) => old(state)@.threads.update(c as int, ThreadControlBlock { sp: outgoing_sp, ..old(state)@.threads[c as int] }),
                None => old(state)@.threads,
            },
            ..old(state)@
        }),
        final(state)@.wf(),
        r == (final(state)@.threads[old(state).next.unwrap() as int].sp, final(state)@.threads[old(state).next.unwrap() as int].privileged),
{
    if let Some(c) = state.curr {
        let t: ThreadControlBlock = state.threads[c];
        state.threads[c] = ThreadControlBlock { sp: outgoing_sp, ..t };
    }
    let n: usize = state.next.unwrap();
    state.curr = Some(n);
    (state.threads[n].sp, state.threads[n].privileged)
}

} // verus!
