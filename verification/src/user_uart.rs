//! The serial ports: which port an interrupt source belongs to, where the
//! port's registers lie, and the bookkeeping of a port that is driven by
//! polling.

use vstd::prelude::*;
use uart_xilinx::uart_16550::uart::LSR;
use crate::config::Board;

verus! {

/// Bytes that a port's transmit queue holds.
pub const FIFO_DEPTH: usize = 16;

/// Number of serial ports.
pub const SERIAL_NUM: usize = 4;

/// Bytes from one port's registers to the next port's.
pub const SERIAL_ADDRESS_STRIDE: usize = 0x1000;

/// Clock that feeds the ports, in hertz.
pub const SERIAL_CLOCK: usize = 100_000_000;

/// Address of the first port's registers on `board`.
pub open spec fn serial_base_address(board: Board) -> usize {
    match board {
        Board::Qemu => 0x1000_2000,
        Board::Lrv => 0x6000_1000,
    }
}

/// Interrupt source of the first port on `board`.
pub open spec fn first_port_irq(board: Board) -> u16 {
    match board {
        Board::Qemu => 12,
        Board::Lrv => 4,
    }
}

/// The port behind the interrupt source `irq`: the four ports have four
/// sources in a row, and every other source is taken for the first port.
pub open spec fn serial_id_of(board: Board, irq: u16) -> usize {
    if first_port_irq(board) <= irq < first_port_irq(board) + 4 {
        (irq - first_port_irq(board)) as usize
    } else {
        0
    }
}

/// The port behind the interrupt source `irq`.
pub fn irq_to_serial_id(board: Board, irq: u16) -> (id: usize)
    ensures
        id == serial_id_of(board, irq),
        id < SERIAL_NUM,
{
    match board {
        Board::Qemu => match irq {
            12 => 0,
            13 => 1,
            14 => 2,
            15 => 3,
            _ => 0,
        },
        Board::Lrv => match irq {
            4 => 0,
            5 => 1,
            6 => 2,
            7 => 3,
            _ => 0,
        },
    }
}

/// Address of the registers of the port behind the interrupt source `irq`.
pub fn get_base_addr_from_irq(board: Board, irq: u16) -> (addr: usize)
    ensures
        addr == serial_base_address(board) + serial_id_of(board, irq) * SERIAL_ADDRESS_STRIDE,
{
    let base: usize = match board {
        Board::Qemu => 0x1000_2000,
        Board::Lrv => 0x6000_1000,
    };
    base + irq_to_serial_id(board, irq) * SERIAL_ADDRESS_STRIDE
}

/// One access to a port's registers, to be carried out by the caller.
#[derive(Clone, Copy, Debug, PartialEq, Eq, Structural)]
pub enum SerialOp {
    /// Write the interrupt enable register.
    WriteIer { value: u8 },
    /// Read the modem status register, which clears it.
    ReadMsr,
    /// Read the line status register, which clears it.
    ReadLsr,
    /// Set the divisor for `baud_rate` at the clock `clock` and the line format.
    Init { clock: usize, baud_rate: usize },
    /// Write the queue control register.
    WriteFcr { value: u8 },
}

/// The port cannot take or give a byte now.
#[derive(Clone, Copy, Debug, PartialEq, Eq, Structural)]
pub struct WouldBlock;

/// A serial port driven by polling, with its counters.
#[derive(Clone, Copy, Debug, PartialEq, Eq, Structural)]
pub struct PollingSerial {
    /// Address of the port's registers.
    pub base_address: usize,
    /// Bytes received.
    pub rx_count: usize,
    /// Bytes sent.
    pub tx_count: usize,
    /// Bytes handed to the transmit queue since it was last seen empty.
    pub tx_fifo_count: usize,
}

/// Calls `LSR::from_bits_truncate` and `LSR::contains` of `uart_xilinx` on
/// the contents of a line status register: whether the bit that says that
/// the transmitter holding register is empty, bit 5, is set. The ports of
/// both boards lay the register out in the same way.
#[verifier::external_body]
fn lsr_thre(lsr: u8) -> (empty: bool)
    ensures
        empty == (lsr & 0x20 != 0),
{
    LSR::from_bits_truncate(lsr).contains(LSR::THRE)
}

/// The accesses that bring a port up for `baud_rate`.
pub open spec fn hardware_init_ops(baud_rate: usize) -> Seq<SerialOp> {
    seq![
        SerialOp::WriteIer { value: 0 },
        SerialOp::ReadMsr,
        SerialOp::ReadLsr,
        SerialOp::Init { clock: SERIAL_CLOCK, baud_rate },
        SerialOp::WriteIer { value: 0 },
        SerialOp::WriteFcr { value: 0xc7 },
    ]
}

impl PollingSerial {
    /// The port at `base_address`, with all counters at zero.
    pub fn new(base_address: usize) -> (port: PollingSerial)
        ensures
            port == (PollingSerial { base_address, rx_count: 0, tx_count: 0, tx_fifo_count: 0 }),
    {
        PollingSerial { base_address, rx_count: 0, tx_count: 0, tx_fifo_count: 0 }
    }

    /// Brings the port up: interrupts off, stale status read away, divisor
    /// and line format set, then both queues reset and enabled with a
    /// receive trigger level of four.
    pub fn hardware_init(&mut self, baud_rate: usize) -> (ops: Vec<SerialOp>)
        ensures
            ops@ == hardware_init_ops(baud_rate),
            *final(self) == *old(self),
    {
        let mut ops: Vec<SerialOp> = Vec::new();
        ops.push(SerialOp::WriteIer { value: 0 });
        ops.push(SerialOp::ReadMsr);
        ops.push(SerialOp::ReadLsr);
        ops.push(SerialOp::Init { clock: SERIAL_CLOCK, baud_rate });
        ops.push(SerialOp::WriteIer { value: 0 });
        ops.push(SerialOp::WriteFcr { value: 0xc7 });
        assert(ops@ =~= hardware_init_ops(baud_rate));
        ops
    }

    /// Services an interrupt of the port. A polled port has nothing to do.
    pub fn interrupt_handler(&mut self)
        ensures
            *final(self) == *old(self),
    {
    }

    /// The port after it has accounted for one byte handed to the device.
    pub open spec fn sent(self) -> PollingSerial {
        PollingSerial {
            tx_count: if self.tx_count == usize::MAX {
                0
            } else {
                (self.tx_count + 1) as usize
            },
            tx_fifo_count: if self.tx_fifo_count >= FIFO_DEPTH {
                1
            } else {
                (self.tx_fifo_count + 1) as usize
            },
            ..self
        }
    }

    /// Whether the next attempt to send has to look at the line status
    /// register: only while the queue is counted full. Otherwise `try_write`
    /// does not use what it is given for the register, and the caller need
    /// not read the device.
    pub fn needs_line_status(&self) -> (needed: bool)
        ensures
            needed == (self.tx_fifo_count >= FIFO_DEPTH),
            !needed ==> forall|a: u8, b: u8| self.sent_or_blocked(a) == self.sent_or_blocked(b),
    {
        self.tx_fifo_count >= FIFO_DEPTH
    }

    /// The port after an attempt to send with the line status `lsr`, and
    /// whether the attempt went through.
    pub open spec fn sent_or_blocked(self, lsr: u8) -> (PollingSerial, bool) {
        if self.tx_fifo_count >= FIFO_DEPTH && lsr & 0x20 == 0 {
            (self, false)
        } else {
            (self.sent(), true)
        }
    }

    /// Decides whether a byte may be handed to the device, given the
    /// contents `lsr` of the line status register, which are looked at only
    /// while the queue is counted full. While the queue is
    /// counted full and the device does not report the transmitter empty,
    /// the port blocks and nothing changes. Otherwise the byte is accounted
    /// for, the count of sent bytes wrapping at the word size, and the caller
    /// writes it to the device.
    pub fn try_write(&mut self, lsr: u8) -> (r: Result<(), WouldBlock>)
        ensures
            *final(self) == old(self).sent_or_blocked(lsr).0,
            r is Ok == old(self).sent_or_blocked(lsr).1,
            old(self).tx_fifo_count >= FIFO_DEPTH && lsr & 0x20 == 0 ==> r is Err && *final(self)
                == *old(self),
            !(old(self).tx_fifo_count >= FIFO_DEPTH && lsr & 0x20 == 0) ==> r is Ok && *final(self)
                == old(self).sent(),
    {
        if self.tx_fifo_count >= FIFO_DEPTH {
            if lsr_thre(lsr) {
                self.tx_fifo_count = 0;
            } else {
                return Err(WouldBlock);
            }
        }
        self.tx_count = self.tx_count.wrapping_add(1);
        self.tx_fifo_count = self.tx_fifo_count + 1;
        Ok(())
    }

    /// Accounts for the answer of the device to a read: a byte is counted,
    /// the count wrapping at the word size, and handed on; no byte blocks.
    pub fn try_read(&mut self, byte: Option<u8>) -> (r: Result<u8, WouldBlock>)
        ensures
            byte matches Some(ch) ==> r == Ok::<u8, WouldBlock>(ch) && *final(self) == (
            PollingSerial {
                rx_count: if old(self).rx_count == usize::MAX {
                    0
                } else {
                    (old(self).rx_count + 1) as usize
                },
                ..*old(self)
            }),
            byte is None ==> r is Err && *final(self) == *old(self),
    {
        match byte {
            Some(ch) => {
                self.rx_count = self.rx_count.wrapping_add(1);
                Ok(ch)
            },
            None => Err(WouldBlock),
        }
    }
}

} // verus!
