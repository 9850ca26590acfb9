//! Early-boot initialization core of a bare-metal kernel: the boot state
//! machine that brings drivers online in order, the steady-state routine that
//! follows it, and the arithmetic behind blocking timer waits.

pub mod boot;
pub mod steady;
pub mod timer;
