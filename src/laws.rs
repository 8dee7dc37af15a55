//! Properties of the scheduler that relate several calls or hold of every
//! input, proved from the contracts of the operations.
use vstd::prelude::*;
use crate::api::create_outcome;
use crate::frame::{fresh_tcb, initial_frame, word_addr, FRAME_WORDS, MIN_STACK_WORDS, XPSR_THUMB};
use crate::sched::{aged_table, best_slot, ThreadsView};
use crate::tcb::{ThreadControlBlock, ThreadStatus, ERR_TOO_MANY_THREADS, MAX_THREADS};

verus! {

/// For every buffer of at least `MIN_STACK_WORDS` words and every entry
/// address, the frame that thread creation writes holds the entry address
/// in the second-highest word, an xPSR with bit 24 set in the highest, and
/// the saved stack pointer is the address of word `len - FRAME_WORDS`.
pub proof fn lemma_frame_round_trip(stack: Seq<u32>, stack_addr: u32, entry: u32, priority: u8, privileged: bool)
    requires
        stack.len() >= MIN_STACK_WORDS,
        word_addr(stack_addr, stack.len() as int) <= u32::MAX + 1,
    ensures
        ({
            let n = stack.len() as int;
            let written = stack.subrange(0, n - FRAME_WORDS) + initial_frame(entry);
            &&& written.len() == n
            &&& written[n - 2] == entry
            &&& written[n - 1] & 0x0100_0000u32 != 0
            &&& fresh_tcb(stack_addr, n, priority, privileged).sp == word_addr(stack_addr, n - FRAME_WORDS)
        }),
{
    let n = stack.len() as int;
    let written = stack.subrange(0, n - FRAME_WORDS) + initial_frame(entry);
    assert(written[n - 2] == initial_frame(entry)[14]);
    assert(written[n - 1] == initial_frame(entry)[15]);
    assert(XPSR_THUMB & 0x0100_0000u32 != 0) by (bit_vector)
        requires
            XPSR_THUMB == 0x0100_0000u32;
}

/// Along a run of successful creations that starts from a table with no
/// user thread, the `k`-th state holds `k` user threads.
proof fn lemma_creations_count(states: Seq<ThreadsView>, stacks: Seq<int>, tcbs: Seq<ThreadControlBlock>, k: int)
    requires
        0 <= k < states.len(),
        states[0].add_idx == 1,
        forall|i: int| 0 <= i < k ==> #[trigger] create_outcome(states[i], stacks[i]) == Ok::<(), u8>(())
            && states[i + 1] == states[i].push_thread(tcbs[i]),
    ensures
        states[k].add_idx == 1 + k,
    decreases k,
{
    if k > 0 {
        lemma_creations_count(states, stacks, tcbs, k - 1);
        assert(create_outcome(states[k - 1], stacks[k - 1]) == Ok::<(), u8>(()));
    }
}

/// After 31 successful thread creations from a table with no user thread,
/// the next creation fails with `ERR_TOO_MANY_THREADS`, whatever its buffer
/// (and a failed creation changes nothing, by its contract).
pub proof fn lemma_capacity_bound(states: Seq<ThreadsView>, stacks: Seq<int>, tcbs: Seq<ThreadControlBlock>)
    requires
        states.len() == MAX_THREADS,
        states[0].add_idx == 1,
        forall|i: int| 0 <= i < MAX_THREADS - 1 ==> #[trigger] create_outcome(states[i], stacks[i]) == Ok::<(), u8>(())
            && states[i + 1] == states[i].push_thread(tcbs[i]),
    ensures
        states[MAX_THREADS - 1].add_idx == MAX_THREADS,
        forall|len: int| #[trigger] create_outcome(states[MAX_THREADS - 1], len) == Err::<(), u8>(ERR_TOO_MANY_THREADS),
{
    lemma_creations_count(states, stacks, tcbs, MAX_THREADS - 1);
}

/// The selection policy: `best_slot` is 0 exactly when no user thread of
/// slots `1..n` is runnable; otherwise it is a runnable user thread of the
/// highest priority, and no runnable thread of a lower slot has that
/// priority.
pub proof fn lemma_selection_policy(ts: Seq<ThreadControlBlock>, n: int)
    requires
        n <= ts.len(),
    ensures
        ({
            let r = best_slot(ts, n);
            &&& 0 <= r
            &&& (r == 0 <==> forall|j: int| 1 <= j < n ==> !(#[trigger] ts[j]).runnable())
            &&& r != 0 ==> {
                &&& r < n
                &&& ts[r].runnable()
                &&& forall|j: int| 1 <= j < n && (#[trigger] ts[j]).runnable() ==> ts[j].priority <= ts[r].priority
                &&& forall|j: int| 1 <= j < r && (#[trigger] ts[j]).runnable() ==> ts[j].priority < ts[r].priority
            }
        }),
    decreases n,
{
    if n > 1 {
        lemma_selection_policy(ts, n - 1);
        let b = best_slot(ts, n - 1);
        if b == 0 && !ts[n - 1].runnable() {
            assert forall|j: int| 1 <= j < n implies !(#[trigger] ts[j]).runnable() by {
                if j < n - 1 {
                }
            }
        }
    }
}

/// When every user thread sleeps with at least one tick left, the
/// scheduler selects the idle thread.
pub proof fn lemma_idle_fallback(ts: Seq<ThreadControlBlock>, n: int)
    requires
        ts.len() == MAX_THREADS,
        1 <= n <= MAX_THREADS,
        forall|j: int| 1 <= j < n ==> (#[trigger] ts[j]).status == ThreadStatus::Sleeping && ts[j].sleep_ticks > 0,
    ensures
        best_slot(aged_table(ts, n), n) == 0,
{
    let aged = aged_table(ts, n);
    lemma_selection_policy(aged, n);
    assert forall|j: int| 1 <= j < n implies !(#[trigger] aged[j]).runnable() by {
        assert(ts[j].status == ThreadStatus::Sleeping);
    }
}

/// A thread that sleeps with 3 ticks left, among user threads that all
/// sleep with at least 4 left, stays asleep through three scheduling
/// decisions, which pick the idle thread; the fourth wakes it and selects it.
pub proof fn lemma_sleep_decrement(ts: Seq<ThreadControlBlock>, n: int, k: int)
    requires
        ts.len() == MAX_THREADS,
        1 <= k < n <= MAX_THREADS,
        ts[k].status == ThreadStatus::Sleeping,
        ts[k].sleep_ticks == 3,
        forall|j: int| 1 <= j < n && j != k ==> (#[trigger] ts[j]).status == ThreadStatus::Sleeping && ts[j].sleep_ticks >= 4,
    ensures
        ({
            let t1 = aged_table(ts, n);
            let t2 = aged_table(t1, n);
            let t3 = aged_table(t2, n);
            let t4 = aged_table(t3, n);
            &&& t1[k].status == ThreadStatus::Sleeping && best_slot(t1, n) == 0
            &&& t2[k].status == ThreadStatus::Sleeping && best_slot(t2, n) == 0
            &&& t3[k].status == ThreadStatus::Sleeping && best_slot(t3, n) == 0
            &&& t4[k].status == ThreadStatus::Idle && best_slot(t4, n) == k
        }),
{
    let t1 = aged_table(ts, n);
    let t2 = aged_table(t1, n);
    let t3 = aged_table(t2, n);
    let t4 = aged_table(t3, n);
    assert forall|j: int| 1 <= j < n && j != k implies (#[trigger] t3[j]).status == ThreadStatus::Sleeping && t3[j].sleep_ticks >= 1 by {
        assert(ts[j].status == ThreadStatus::Sleeping);
    }
    lemma_idle_fallback(ts, n);
    lemma_idle_fallback(t1, n);
    lemma_idle_fallback(t2, n);
    lemma_selection_policy(t4, n);
    assert forall|j: int| 1 <= j < n && j != k implies !(#[trigger] t4[j]).runnable() by {
        assert(t3[j].status == ThreadStatus::Sleeping);
    }
    assert(t4[k].runnable());
}

} // verus!
