//! The initial exception frame that makes a new thread resumable.
use vstd::prelude::*;
use crate::tcb::{ThreadControlBlock, ThreadStatus, ERR_STACK_TOO_SMALL};

verus! {

/// Smallest stack buffer, in words, that a thread may be given.
pub const MIN_STACK_WORDS: usize = 32;

/// Number of words the initial frame occupies at the top of a stack.
pub const FRAME_WORDS: usize = 16;

/// xPSR with the Thumb bit (bit 24) set.
pub const XPSR_THUMB: u32 = 0x0100_0000;

/// EXC_RETURN value: return to Thread mode, using the process stack.
pub const EXC_RETURN_THREAD_PSP: u32 = 0xFFFF_FFFD;

/// The sixteen words of a fresh thread's frame, lowest address first:
/// R8-R11, R4-R7 (callee-saved, as the context switch pops them), then
/// R0-R3, R12, LR, PC and xPSR (as the exception return pops them).
pub open spec fn initial_frame(entry: u32) -> Seq<u32> {
    seq![
        0x8888_8888u32, 0x9999_9999u32, 0xAAAA_AAAAu32, 0xBBBB_BBBBu32,
        0x4444_4444u32, 0x5555_5555u32, 0x6666_6666u32, 0x7777_7777u32,
        0x0000_0000u32, 0x1111_1111u32, 0x2222_2222u32, 0x3333_3333u32,
        0xCCCC_CCCCu32, EXC_RETURN_THREAD_PSP, entry, XPSR_THUMB,
    ]
}

/// Address of word `i` of a buffer of words that starts at `base`.
pub open spec fn word_addr(base: u32, i: int) -> int {
    base + 4 * i
}

/// The block of a thread whose buffer starts at `stack_addr`, holds `len`
/// words and carries its initial frame.
pub open spec fn fresh_tcb(stack_addr: u32, len: int, priority: u8, privileged: bool) -> ThreadControlBlock {
    ThreadControlBlock {
        sp: word_addr(stack_addr, len - FRAME_WORDS) as u32,
        privileged: if privileged { 1u32 } else { 0u32 },
        priority,
        status: ThreadStatus::Idle,
        sleep_ticks: 0,
    }
}

/// Writes the initial frame at the top of `stack` and returns the thread's
/// block, whose `sp` is the address of the lowest word written.
///
/// `stack_addr` is the address of `stack[0]` and `entry` the address of the
/// thread's entry function. A buffer shorter than `MIN_STACK_WORDS` is
/// refused with `ERR_STACK_TOO_SMALL` and left untouched. The buffer lies
/// in the 32-bit address space.
pub fn create_tcb(stack: &mut [u32], stack_addr: u32, entry: u32, priority: u8, privileged: bool) -> (r: Result<ThreadControlBlock, u8>)
    requires
        word_addr(stack_addr, old(stack)@.len() as int) <= u32::MAX + 1,
    ensures
        old(stack)@.len() < MIN_STACK_WORDS ==> r == Err::<ThreadControlBlock, u8>(ERR_STACK_TOO_SMALL) && final(stack)@ == old(stack)@,
        old(stack)@.len() >= MIN_STACK_WORDS ==> r == Ok::<ThreadControlBlock, u8>(fresh_tcb(stack_addr, old(stack)@.len() as int, priority, privileged))
            && final(stack)@ == old(stack)@.subrange(0, old(stack)@.len() - FRAME_WORDS) + initial_frame(entry),
{
    let n: usize = stack.len();
    if n < MIN_STACK_WORDS {
        return Err(ERR_STACK_TOO_SMALL);
    }
    let top: usize = n - 1;
    stack[top] = XPSR_THUMB;
    stack[top - 1] = entry;
    stack[top - 2] = EXC_RETURN_THREAD_PSP;
    stack[top - 3] = 0xCCCC_CCCC;
    stack[top - 4] = 0x3333_3333;
    stack[top - 5] = 0x2222_2222;
    stack[top - 6] = 0x1111_1111;
    stack[top - 7] = 0x0000_0000;
    stack[top - 8] = 0x7777_7777;
    stack[top - 9] = 0x6666_6666;
    stack[top - 10] = 0x5555_5555;
    stack[top - 11] = 0x4444_4444;
    stack[top - 12] = 0xBBBB_BBBB;
    stack[top - 13] = 0xAAAA_AAAA;
    stack[top - 14] = 0x9999_9999;
    stack[top - 15] = 0x8888_8888;
    let low: usize = n - FRAME_WORDS;
    let sp: u32 = stack_addr + 4 * (low as u32);
    assert(stack@ =~= old(stack)@.subrange(0, n - FRAME_WORDS) + initial_frame(entry));
    Ok(ThreadControlBlock {
        sp,
        privileged: if privileged { 1 } else { 0 },
        priority,
        status: ThreadStatus::Idle,
        sleep_ticks: 0,
    })
}

} // verus!
