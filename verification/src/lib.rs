//! A single-machine cooperative task scheduler: a fixed set of OS child
//! processes is driven through a textbook process lifecycle
//! (New -> Ready -> Running -> Waiting -> Terminated) by a priority-based
//! dispatcher and a fixed time quantum, with stop/continue signalling for
//! preemption and non-blocking wait polling for exit detection.

pub mod adapter;
pub mod channel;
pub mod sched;
pub mod task;
