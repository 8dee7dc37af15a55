use cortexm_threads::api::{
    create_thread, create_thread_with_config, get_thread_id, init, pendsv_set, sleep, ICSR_ADDR,
    IDLE_PRIORITY, IDLE_STACK_WORDS, PENDSVSET,
};
use cortexm_threads::frame::{create_tcb, EXC_RETURN_THREAD_PSP, XPSR_THUMB};
use cortexm_threads::sched::{get_next_thread_idx, switch_context, SysTick, ThreadsState};
use cortexm_threads::tcb::{
    ThreadControlBlock, ThreadStatus, ERR_NO_CREATE_PRIV, ERR_STACK_TOO_SMALL, ERR_TOO_MANY_THREADS,
    MAX_THREADS,
};

const ENTRY: u32 = 0x0800_0101;
const IDLE_ENTRY: u32 = 0x0800_0201;

fn stack_addr(slot: usize) -> u32 {
    0x2000_0000 + (slot as u32) * 0x1000
}

fn start(state: &mut ThreadsState) {
    let mut idle = vec![0xDEAD_BEEFu32; IDLE_STACK_WORDS];
    if init(state, &mut idle, 0x2010_0000, IDLE_ENTRY) {
        switch_context(state, 0);
    }
}

/// Runs the context switch when the tick handler asked for one.
fn settle(state: &mut ThreadsState, pend: bool) {
    if pend {
        switch_context(state, 0x2000_0F00);
    }
}

fn running(state: &ThreadsState) -> usize {
    state.curr.unwrap()
}

#[test]
fn frame_round_trip_minimum_stack() {
    let mut stack = [0xDEAD_BEEFu32; 32];
    let tcb = create_tcb(&mut stack, 0x2000_0000, ENTRY, 4, true).unwrap();
    assert_eq!(stack[30], ENTRY);
    assert_ne!(stack[31] & (1 << 24), 0);
    assert_eq!(tcb.sp, 0x2000_0000 + 4 * 16);
    assert_eq!(tcb.privileged, 1);
    assert_eq!(tcb.priority, 4);
    assert_eq!(tcb.status, ThreadStatus::Idle);
    assert_eq!(tcb.sleep_ticks, 0);
    for w in &stack[..16] {
        assert_eq!(*w, 0xDEAD_BEEF);
    }
}

#[test]
fn frame_round_trip_large_stack() {
    let mut stack = vec![0u32; 512];
    let tcb = create_tcb(&mut stack, 0x2000_1000, 0x0800_4321, 0, false).unwrap();
    assert_eq!(stack[510], 0x0800_4321);
    assert_eq!(stack[511], XPSR_THUMB);
    assert_eq!(tcb.sp, 0x2000_1000 + 4 * 496);
    assert_eq!(tcb.privileged, 0);
}

#[test]
fn frame_layout_words() {
    let mut stack = [0u32; 40];
    create_tcb(&mut stack, 0x2000_0000, ENTRY, 0, false).unwrap();
    let expected: [u32; 16] = [
        0x8888_8888, 0x9999_9999, 0xAAAA_AAAA, 0xBBBB_BBBB, 0x4444_4444, 0x5555_5555,
        0x6666_6666, 0x7777_7777, 0x0000_0000, 0x1111_1111, 0x2222_2222, 0x3333_3333,
        0xCCCC_CCCC, EXC_RETURN_THREAD_PSP, ENTRY, 0x0100_0000,
    ];
    assert_eq!(&stack[24..], &expected[..]);
    assert_eq!(EXC_RETURN_THREAD_PSP, 0xFFFF_FFFD);
}

#[test]
fn frame_refuses_small_stack() {
    let mut stack = [7u32; 31];
    assert_eq!(create_tcb(&mut stack, 0x2000_0000, ENTRY, 0, false), Err(ERR_STACK_TOO_SMALL));
    assert!(stack.iter().all(|w| *w == 7));
}

#[test]
fn stack_size_precondition() {
    let mut state = ThreadsState::new();
    let mut stack = [5u32; 31];
    assert_eq!(create_thread(&mut state, &mut stack, stack_addr(1), ENTRY), Err(ERR_STACK_TOO_SMALL));
    assert_eq!(ERR_STACK_TOO_SMALL, 0x02);
    assert_eq!(state.add_idx, 1);
    assert!(stack.iter().all(|w| *w == 5));
    let mut empty: [u32; 0] = [];
    assert_eq!(create_thread(&mut state, &mut empty, stack_addr(1), ENTRY), Err(ERR_STACK_TOO_SMALL));
    assert_eq!(state.add_idx, 1);
}

#[test]
fn create_appends_thread() {
    let mut state = ThreadsState::new();
    let mut stack = [0u32; 64];
    assert_eq!(create_thread_with_config(&mut state, &mut stack, stack_addr(1), ENTRY, 7, true), Ok(()));
    assert_eq!(state.add_idx, 2);
    let t = state.threads[1];
    assert_eq!(t.sp, stack_addr(1) + 4 * 48);
    assert_eq!(t.priority, 7);
    assert_eq!(t.privileged, 1);
    assert_eq!(t.status, ThreadStatus::Idle);
    assert_eq!(stack[62], ENTRY);
    let mut stack2 = [0u32; 32];
    assert_eq!(create_thread(&mut state, &mut stack2, stack_addr(2), ENTRY), Ok(()));
    assert_eq!(state.threads[2].priority, 0);
    assert_eq!(state.threads[2].privileged, 0);
    assert_eq!(state.add_idx, 3);
}

#[test]
fn capacity_bound() {
    let mut state = ThreadsState::new();
    let mut stacks = vec![vec![0u32; 32]; 32];
    for i in 0..31 {
        assert_eq!(create_thread(&mut state, &mut stacks[i], stack_addr(i + 1), ENTRY), Ok(()));
    }
    assert_eq!(state.add_idx, MAX_THREADS);
    let before: Vec<ThreadControlBlock> = state.threads.to_vec();
    assert_eq!(create_thread(&mut state, &mut stacks[31], stack_addr(32), ENTRY), Err(ERR_TOO_MANY_THREADS));
    assert_eq!(ERR_TOO_MANY_THREADS, 0x01);
    assert_eq!(state.add_idx, MAX_THREADS);
    assert_eq!(state.threads.to_vec(), before);
    assert!(stacks[31].iter().all(|w| *w == 0));
}

#[test]
fn capacity_scenario_keeps_scheduling() {
    let mut state = ThreadsState::new();
    let mut stacks = vec![vec![0u32; 32]; 32];
    for i in 0..31 {
        assert_eq!(create_thread(&mut state, &mut stacks[i], stack_addr(i + 1), ENTRY), Ok(()));
    }
    assert_eq!(create_thread(&mut state, &mut stacks[31], stack_addr(32), ENTRY), Err(ERR_TOO_MANY_THREADS));
    start(&mut state);
    for slot in 1..32 {
        assert_eq!(running(&state), slot);
        assert_eq!(get_thread_id(&state), slot);
        let pend = sleep(&mut state, 100);
        settle(&mut state, pend);
    }
    assert_eq!(running(&state), 0);
}

#[test]
fn privilege_enforcement() {
    let mut state = ThreadsState::new();
    let mut stack = [0u32; 32];
    assert_eq!(create_thread(&mut state, &mut stack, stack_addr(1), ENTRY), Ok(()));
    start(&mut state);
    assert_eq!(running(&state), 1);
    let mut other = [0u32; 32];
    assert_eq!(create_thread(&mut state, &mut other, stack_addr(2), ENTRY), Err(ERR_NO_CREATE_PRIV));
    assert_eq!(ERR_NO_CREATE_PRIV, 0x03);
    assert_eq!(state.add_idx, 2);
    assert!(other.iter().all(|w| *w == 0));
}

#[test]
fn privileged_thread_may_create() {
    let mut state = ThreadsState::new();
    let mut stack = [0u32; 32];
    assert_eq!(create_thread_with_config(&mut state, &mut stack, stack_addr(1), ENTRY, 1, true), Ok(()));
    start(&mut state);
    assert_eq!(running(&state), 1);
    let mut other = [0u32; 32];
    assert_eq!(create_thread(&mut state, &mut other, stack_addr(2), ENTRY), Ok(()));
    assert_eq!(state.add_idx, 3);
}

#[test]
fn too_many_checked_before_privilege() {
    let mut state = ThreadsState::new();
    state.add_idx = MAX_THREADS;
    state.inited = true;
    let mut stack = [0u32; 8];
    assert_eq!(create_thread(&mut state, &mut stack, stack_addr(1), ENTRY), Err(ERR_TOO_MANY_THREADS));
}

#[test]
fn privilege_checked_before_stack_size() {
    let mut state = ThreadsState::new();
    state.inited = true;
    let mut stack = [0u32; 8];
    assert_eq!(create_thread(&mut state, &mut stack, stack_addr(1), ENTRY), Err(ERR_NO_CREATE_PRIV));
}

fn with_priorities(prios: &[u8]) -> ThreadsState {
    let mut state = ThreadsState::new();
    let mut stack = [0u32; 32];
    for (i, p) in prios.iter().enumerate() {
        assert_eq!(create_thread_with_config(&mut state, &mut stack, stack_addr(i + 1), ENTRY, *p, false), Ok(()));
    }
    state
}

#[test]
fn priority_selection() {
    let mut state = with_priorities(&[1, 5, 3]);
    assert_eq!(get_next_thread_idx(&mut state), 2);
    state.threads[2].status = ThreadStatus::Sleeping;
    state.threads[2].sleep_ticks = 10;
    assert_eq!(get_next_thread_idx(&mut state), 3);
    assert_eq!(state.threads[2].sleep_ticks, 9);
}

#[test]
fn equal_priorities_pick_lowest_slot() {
    let mut state = with_priorities(&[2, 4, 4, 1]);
    assert_eq!(get_next_thread_idx(&mut state), 2);
}

#[test]
fn no_user_threads_selects_idle() {
    let mut state = ThreadsState::new();
    assert_eq!(get_next_thread_idx(&mut state), 0);
}

#[test]
fn idle_fallback() {
    let mut state = with_priorities(&[1, 5, 3]);
    for i in 1..4 {
        state.threads[i].status = ThreadStatus::Sleeping;
        state.threads[i].sleep_ticks = 2;
    }
    assert_eq!(get_next_thread_idx(&mut state), 0);
}

#[test]
fn sleep_decrement() {
    let mut state = with_priorities(&[3]);
    state.threads[1].status = ThreadStatus::Sleeping;
    state.threads[1].sleep_ticks = 3;
    for left in [2u32, 1, 0] {
        assert_eq!(get_next_thread_idx(&mut state), 0);
        assert_eq!(state.threads[1].status, ThreadStatus::Sleeping);
        assert_eq!(state.threads[1].sleep_ticks, left);
    }
    assert_eq!(get_next_thread_idx(&mut state), 1);
    assert_eq!(state.threads[1].status, ThreadStatus::Idle);
}

#[test]
fn tick_before_init_does_nothing() {
    let mut state = with_priorities(&[1]);
    assert!(!SysTick(&mut state));
    assert_eq!(state.next, None);
    assert_eq!(state.idx, 0);
}

#[test]
fn pendsv_pending() {
    let mut state = with_priorities(&[1]);
    let mut idle = vec![0u32; IDLE_STACK_WORDS];
    assert!(init(&mut state, &mut idle, 0x2010_0000, IDLE_ENTRY));
    assert_eq!(state.next, Some(1));
    assert_eq!(ICSR_ADDR, 0xE000_ED04);
    assert_eq!(pendsv_set(0x0000_0401), 0x1000_0401);
    assert_eq!(pendsv_set(0xEFFF_FFFF), 0xFFFF_FFFF);
    assert_eq!(pendsv_set(PENDSVSET), PENDSVSET);
    assert_eq!(pendsv_set(0) & (1 << 28), 1 << 28);
}

#[test]
fn pending_switch_is_not_reconsidered() {
    let mut state = with_priorities(&[1]);
    let mut idle = vec![0u32; IDLE_STACK_WORDS];
    assert!(init(&mut state, &mut idle, 0x2010_0000, IDLE_ENTRY));
    state.threads[1].status = ThreadStatus::Sleeping;
    state.threads[1].sleep_ticks = 5;
    assert!(SysTick(&mut state));
    assert_eq!(state.next, Some(1));
    assert_eq!(state.threads[1].sleep_ticks, 5);
}

#[test]
fn init_installs_idle_thread() {
    let mut state = ThreadsState::new();
    let mut idle = vec![0u32; IDLE_STACK_WORDS];
    assert!(init(&mut state, &mut idle, 0x2010_0000, IDLE_ENTRY));
    assert!(state.inited);
    assert_eq!(state.threads[0].priority, IDLE_PRIORITY);
    assert_eq!(state.threads[0].privileged, 0);
    assert_eq!(state.threads[0].sp, 0x2010_0000 + 4 * 48);
    assert_eq!(idle[62], IDLE_ENTRY);
}

#[test]
fn sleep_from_idle_is_no_op() {
    let mut state = ThreadsState::new();
    start(&mut state);
    assert_eq!(state.idx, 0);
    assert!(!sleep(&mut state, 100));
    assert_eq!(state.threads[0].status, ThreadStatus::Idle);
    assert_eq!(state.threads[0].sleep_ticks, 0);
}

#[test]
fn switch_saves_and_restores_stack_pointers() {
    let mut state = with_priorities(&[1, 2]);
    start(&mut state);
    assert_eq!(running(&state), 2);
    let pend = sleep(&mut state, 3);
    assert!(pend);
    let (sp, privileged) = switch_context(&mut state, 0x2000_2F80);
    assert_eq!(state.threads[2].sp, 0x2000_2F80);
    assert_eq!(sp, stack_addr(1) + 4 * 16);
    assert_eq!(privileged, 0);
    assert_eq!(running(&state), 1);
}

#[test]
fn two_thread_alternation() {
    let mut state = with_priorities(&[0, 0]);
    start(&mut state);
    let mut out = String::new();
    for _ in 0..10 {
        let who = running(&state);
        out.push(if who == 1 { 'A' } else if who == 2 { 'B' } else { '-' });
        let pend = sleep(&mut state, 1);
        settle(&mut state, pend);
    }
    assert_eq!(out, "ABABABABAB");
}

#[test]
fn priority_preemption() {
    let mut state = with_priorities(&[10, 1]);
    start(&mut state);
    assert_eq!(running(&state), 1);
    // H sleeps 5 ticks: the tick of the call is the first of them.
    let pend = sleep(&mut state, 5);
    settle(&mut state, pend);
    for _ in 0..4 {
        assert_eq!(running(&state), 2);
        let pend = SysTick(&mut state);
        settle(&mut state, pend);
    }
    assert_eq!(running(&state), 2);
    let pend = SysTick(&mut state);
    settle(&mut state, pend);
    for _ in 0..20 {
        assert_eq!(running(&state), 1);
        let pend = SysTick(&mut state);
        assert!(!pend);
    }
}

#[test]
fn idle_only() {
    let mut state = ThreadsState::new();
    start(&mut state);
    assert_eq!(running(&state), 0);
    for _ in 0..5 {
        assert!(!SysTick(&mut state));
        assert_eq!(get_thread_id(&state), 0);
    }
}

#[test]
fn privilege_gate() {
    let mut state = ThreadsState::new();
    let mut stack = [0u32; 32];
    assert_eq!(create_thread(&mut state, &mut stack, stack_addr(1), ENTRY), Ok(()));
    start(&mut state);
    assert_eq!(running(&state), 1);
    let mut other = [0u32; 64];
    assert_eq!(create_thread_with_config(&mut state, &mut other, stack_addr(2), ENTRY, 9, true), Err(ERR_NO_CREATE_PRIV));
    assert_eq!(state.add_idx, 2);
}
