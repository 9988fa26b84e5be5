//! Privilege-level bootstrap, trap handling and interrupt-controller dispatch
//! for a small multi-hart RISC-V system with user-level interrupts.
//!
//! The crate holds the decisions of the firmware as verified functions over
//! plain values. Touching the hardware (control and status registers, the
//! memory-mapped interrupt controller, the platform firmware) is left to the
//! caller, which performs the operations that these functions hand out.
//!
//! - [`boot`]: the boot stacks, the steps of the primary and the secondary
//!   harts, and the switch to user level.
//! - [`stack`]: the per-hart kernel and user stacks and the slot for the
//!   context record.
//! - [`trap`]: the context records, the trap vectors and the dispatchers.
//! - [`hart`], [`csr`]: the state of a hart and its registers.
//! - [`plic`], [`controller`]: the interrupt controller's contexts and
//!   operations, and the controller as a state machine.
//! - [`flags`]: one flag per hart, for pending interrupts and for the
//!   readiness barrier.
//! - [`user_uart`], [`uart_speed_test`], [`xxv_dma_example`],
//!   [`s2mm_curdesc_msb`]: what the device tests decide.

pub mod boot;
pub mod config;
pub mod controller;
pub mod csr;
pub mod flags;
pub mod hart;
pub mod plic;
pub mod s2mm_curdesc_msb;
pub mod stack;
pub mod trap;
pub mod uart_speed_test;
pub mod user_uart;
pub mod xxv_dma_example;
