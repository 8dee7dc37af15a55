//! A preemptive, priority-based thread scheduler for ARM Cortex-M cores.
//!
//! The library holds the scheduler's state as a plain value: the table of
//! thread control blocks, the current and next selection, and the builder of
//! the initial exception frame of a new thread. The hardware side (interrupt
//! masking, the PendSV trampoline, the ICSR register, taking addresses) is
//! left to the caller, which hands in addresses and register values as
//! integers and receives the values to write back.
pub mod tcb;
pub mod frame;
pub mod sched;
pub mod api;
pub mod laws;
