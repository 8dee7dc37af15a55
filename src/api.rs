//! The operations offered to application code: thread creation, start-up,
//! sleeping, and the request of a context switch.
use vstd::prelude::*;
use crate::frame::{create_tcb, fresh_tcb, initial_frame, word_addr, FRAME_WORDS, MIN_STACK_WORDS};
use crate::sched::{SysTick, ThreadsState, ThreadsView};
use crate::tcb::{ThreadControlBlock, ThreadStatus, ERR_NO_CREATE_PRIV, ERR_STACK_TOO_SMALL, ERR_TOO_MANY_THREADS, MAX_THREADS};

verus! {

/// Priority given to the idle thread.
pub const IDLE_PRIORITY: u8 = 0xFF;

/// Stack words reserved for the idle thread.
pub const IDLE_STACK_WORDS: usize = 64;

/// The PENDSVSET bit (bit 28) of the ICSR register.
pub const PENDSVSET: u32 = 0x1000_0000;

/// Address of the ICSR register.
pub const ICSR_ADDR: u32 = 0xE000_ED04;

/// Whether the running thread may change the thread table: always before
/// initialisation, afterwards only from a privileged thread.
pub open spec fn may_create(s: ThreadsView) -> bool {
    !s.inited || s.threads[s.idx as int].privileged != 0
}

/// What creating a thread with a buffer of `len` words returns.
pub open spec fn create_outcome(s: ThreadsView, len: int) -> Result<(), u8> {
    if s.add_idx >= MAX_THREADS {
        Err(ERR_TOO_MANY_THREADS)
    } else if !may_create(s) {
        Err(ERR_NO_CREATE_PRIV)
    } else if len < MIN_STACK_WORDS {
        Err(ERR_STACK_TOO_SMALL)
    } else {
        Ok(())
    }
}

/// Creates a thread with the given priority (larger is higher) and
/// privilege. `stack` becomes the thread's stack; `stack_addr` is the
/// address of `stack[0]` and `entry` that of the thread's entry function.
///
/// A full table gives `ERR_TOO_MANY_THREADS`, a call from an unprivileged
/// thread after initialisation `ERR_NO_CREATE_PRIV`, and a buffer of fewer
/// than `MIN_STACK_WORDS` words `ERR_STACK_TOO_SMALL`, checked in that
/// order. On an error neither the state nor the buffer changes.
pub fn create_thread_with_config(
    state: &mut ThreadsState,
    stack: &mut [u32],
    stack_addr: u32,
    entry: u32,
    priority: u8,
    privileged: bool,
) -> (r: Result<(), u8>)
    requires
        old(state)@.wf(),
        word_addr(stack_addr, old(stack)@.len() as int) <= u32::MAX + 1,
    ensures
        final(state)@.wf(),
        r == create_outcome(old(state)@, old(stack)@.len() as int),
        r is Ok ==> final(state)@ == old(state)@.push_thread(fresh_tcb(stack_addr, old(stack)@.len() as int, priority, privileged)),
        r is Ok ==> final(stack)@ == old(stack)@.subrange(0, old(stack)@.len() - FRAME_WORDS) + initial_frame(entry),
        r is Err ==> final(state)@ == old(state)@ && final(stack)@ == old(stack)@,
{
    if state.add_idx >= MAX_THREADS {
        return Err(ERR_TOO_MANY_THREADS);
    }
    if state.inited && state.threads[state.idx].privileged == 0 {
        return Err(ERR_NO_CREATE_PRIV);
    }
    match create_tcb(stack, stack_addr, entry, priority, privileged) {
        Ok(tcb) => {
            let i: usize = state.add_idx;
            state.threads[i] = tcb;
            state.add_idx = i + 1;
            proof {
                assert(state@.threads =~= old(state)@.push_thread(tcb).threads);
            }
            Ok(())
        },
        Err(e) => Err(e),
    }
}

/// Creates an unprivileged thread of the lowest priority (0).
pub fn create_thread(state: &mut ThreadsState, stack: &mut [u32], stack_addr: u32, entry: u32) -> (r: Result<(), u8>)
    requires
        old(state)@.wf(),
        word_addr(stack_addr, old(stack)@.len() as int) <= u32::MAX + 1,
    ensures
        final(state)@.wf(),
        r == create_outcome(old(state)@, old(stack)@.len() as int),
        r is Ok ==> final(state)@ == old(state)@.push_thread(fresh_tcb(stack_addr, old(stack)@.len() as int, 0, false)),
        r is Ok ==> final(stack)@ == old(stack)@.subrange(0, old(stack)@.len() - FRAME_WORDS) + initial_frame(entry),
        r is Err ==> final(state)@ == old(state)@ && final(stack)@ == old(stack)@,
{
    create_thread_with_config(state, stack, stack_addr, entry, 0x00, false)
}

/// Slot of the running thread.
pub fn get_thread_id(state: &ThreadsState) -> (r: usize)
    ensures
        r == state.idx,
{
    state.idx
}

/// Puts the running thread to sleep for `ticks` ticks and runs the tick
/// handler, whose answer (pend PendSV or not) is returned. From the idle
/// thread (slot 0) nothing changes.
pub fn sleep(state: &mut ThreadsState, ticks: u32) -> (pend: bool)
    requires
        old(state)@.wf(),
    ensures
        final(state)@.wf(),
        old(state).idx == 0 ==> final(state)@ == old(state)@ && !pend,
        old(state).idx > 0 ==> {
            let slept = ThreadsView {
                threads: old(state)@.threads.update(
                    old(state).idx as int,
                    ThreadControlBlock {
                        status: ThreadStatus::Sleeping,
                        sleep_ticks: ticks,
                        ..old(state)@.threads[old(state).idx as int]
                    },
                ),
                ..old(state)@
            };
            &&& final(state)@ == slept.ticked()
            &&& pend == (slept.inited && final(state)@.switch_pending())
        },
{
    let i: usize = state.idx;
    if i == 0 {
        return false;
    }
    let t = state.threads[i];
    state.threads[i] = ThreadControlBlock { status: ThreadStatus::Sleeping, sleep_ticks: ticks, ..t };
    SysTick(state)
}

/// Installs the idle thread in slot 0 on `idle_stack` (at `stack_addr`,
/// entry function at `entry`), marks the system initialised and runs the
/// tick handler, whose answer (pend PendSV or not) is returned.
pub fn init(state: &mut ThreadsState, idle_stack: &mut [u32], stack_addr: u32, entry: u32) -> (pend: bool)
    requires
        old(state)@.wf(),
        old(idle_stack)@.len() >= MIN_STACK_WORDS,
        word_addr(stack_addr, old(idle_stack)@.len() as int) <= u32::MAX + 1,
    ensures
        ({
            let installed = ThreadsView {
                threads: old(state)@.threads.update(0, fresh_tcb(stack_addr, old(idle_stack)@.len() as int, IDLE_PRIORITY, false)),
                inited: true,
                ..old(state)@
            };
            &&& final(state)@ == installed.ticked()
            &&& pend == final(state)@.switch_pending()
        }),
        final(state)@.wf(),
        final(idle_stack)@ == old(idle_stack)@.subrange(0, old(idle_stack)@.len() - FRAME_WORDS) + initial_frame(entry),
{
    let r = create_tcb(idle_stack, stack_addr, entry, IDLE_PRIORITY, false);
    let tcb = r.unwrap();
    state.threads[0] = tcb;
    state.inited = true;
    SysTick(state)
}

/// The ICSR value that pends PendSV: `icsr` with bit 28 set and every other
/// bit kept.
pub fn pendsv_set(icsr: u32) -> (r: u32)
    ensures
        r == icsr | PENDSVSET,
        r & PENDSVSET == PENDSVSET,
        r & !PENDSVSET == icsr & !PENDSVSET,
{
    let r: u32 = icsr | PENDSVSET;
    assert(r & PENDSVSET == PENDSVSET && r & !PENDSVSET == icsr & !PENDSVSET) by (bit_vector)
        requires
            r == icsr | 0x1000_0000u32,
            PENDSVSET == 0x1000_0000u32;
    r
}

} // verus!
