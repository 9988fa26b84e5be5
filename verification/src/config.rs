//! Sizes and counts that are fixed at build time.

use vstd::prelude::*;

verus! {

/// Bytes of heap handed to the device drivers.
pub const KERNEL_HEAP_SIZE: usize = 0x1_0000;

/// Bytes of one hart's user stack.
pub const USER_STACK_SIZE: usize = 0x400;

/// Bytes of one hart's kernel stack.
pub const KERNEL_STACK_SIZE: usize = 0x400;

/// Number of harts the image is built for.
pub const CPU_NUM: usize = 1;

/// Bytes of one hart's boot stack.
pub const BOOT_STACK_SIZE: usize = 0x4_0000;

/// Bytes of all boot stacks together.
pub const TOTAL_BOOT_STACK_SIZE: usize = BOOT_STACK_SIZE * CPU_NUM;

/// Bytes of a page; every stack region starts on a page boundary.
pub const PAGE_SIZE: usize = 4096;

/// Line rate of the serial ports.
pub const BAUD_RATE: usize = 6_250_000;

/// Board that the image is built for.
#[derive(Clone, Copy, Debug, PartialEq, Eq, Structural)]
pub enum Board {
    /// The emulated board.
    Qemu,
    /// The FPGA board.
    Lrv,
}

/// Timer ticks per second on `board`.
pub open spec fn clock_freq_of(board: Board) -> usize {
    match board {
        Board::Qemu => 12_500_000,
        Board::Lrv => 10_000_000,
    }
}

/// Timer ticks per second on `board`.
pub fn clock_freq(board: Board) -> (freq: usize)
    ensures
        freq == clock_freq_of(board),
{
    match board {
        Board::Qemu => 12_500_000,
        Board::Lrv => 10_000_000,
    }
}

} // verus!
