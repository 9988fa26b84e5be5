//! The throughput test of a hart's serial port: what is set up before it,
//! and the running digest of every byte that goes out or comes in.

use vstd::prelude::*;
use blake3::Hasher;
use crate::config::{clock_freq, clock_freq_of, Board};
use crate::plic::{context_index, context_of, first_serial_irq, init_hart, init_hart_ops};
use crate::plic::{mode_offset, ContextError, PlicOp};
use crate::user_uart::{PollingSerial, WouldBlock, FIFO_DEPTH};

verus! {

/// Attempts to write, then to read, in one round of the test.
pub const ROUND: usize = 14;

/// The byte that the test sends when its interrupt is armed.
pub const TEST_BYTE: u8 = 0x55;

/// The incremental hash state of `blake3`.
#[verifier::external_type_specification]
#[verifier::external_body]
pub struct ExHasher(Hasher);

/// The bytes that a hash state has taken in so far, in order.
pub uninterp spec fn hasher_input(h: Hasher) -> Seq<u8>;

/// The input offset of a hash state. A state can be finalized only while
/// its offset is zero.
pub uninterp spec fn hasher_input_offset(h: Hasher) -> u64;

/// Whether a hash state is one of the regular hash function: it was made
/// without a key and without a key derivation context.
pub uninterp spec fn hasher_regular(h: Hasher) -> bool;

/// The thirty-two bytes of the regular, unkeyed BLAKE3 hash of `input`.
pub uninterp spec fn blake3_hash(input: Seq<u8>) -> Seq<u8>;

/// Calls `blake3::Hasher::new`: a state for the regular hash function that
/// has taken in nothing yet, at input offset zero.
#[verifier::external_body]
fn hasher_new() -> (h: Hasher)
    ensures
        hasher_input(h) == Seq::<u8>::empty(),
        hasher_input_offset(h) == 0,
        hasher_regular(h),
{
    Hasher::new()
}

/// Calls `blake3::Hasher::update` with the one byte `byte`: the byte is
/// added to what the state has taken in; the input offset, the key and the
/// mode of the state stay. At an input offset other than zero the call may
/// panic.
#[verifier::external_body]
fn hasher_update(h: &mut Hasher, byte: u8)
    requires
        hasher_input_offset(*old(h)) == 0,
    ensures
        hasher_input(*final(h)) == hasher_input(*old(h)).push(byte),
        hasher_input_offset(*final(h)) == hasher_input_offset(*old(h)),
        hasher_regular(*final(h)) == hasher_regular(*old(h)),
{
    h.update(&[byte]);
}

/// Calls `blake3::Hasher::finalize` and `blake3::Hash::as_bytes`: for a
/// state of the regular hash function, the regular hash of everything that
/// the state has taken in. A keyed state or one that derives a key gives
/// another value, so the contract leaves those out. The state is not
/// changed. The call panics unless the input offset is zero.
#[verifier::external_body]
fn hasher_finalize(h: &Hasher) -> (digest: [u8; 32])
    requires
        hasher_input_offset(*h) == 0,
        hasher_regular(*h),
    ensures
        digest@ == blake3_hash(hasher_input(*h)),
{
    *h.finalize().as_bytes()
}

/// The interrupt source of the serial port that `hart_id` tests.
pub fn speed_test_irq(board: Board, hart_id: usize) -> (irq: u16)
    requires
        first_serial_irq(board) + hart_id <= u16::MAX,
    ensures
        irq == first_serial_irq(board) + hart_id,
{
    match board {
        Board::Qemu => 14 + hart_id as u16,
        Board::Lrv => 6 + hart_id as u16,
    }
}

/// The controller operations before the test of `hart_id` at privilege
/// level `mode`: the hart's contexts are brought up, then the port's source
/// is made visible to the context of `mode`. An unknown mode is an error.
pub fn speed_test_setup(board: Board, hart_id: usize, mode: char) -> (r: Result<
    Vec<PlicOp>,
    ContextError,
>)
    requires
        first_serial_irq(board) + hart_id <= u16::MAX,
    ensures
        mode_offset(mode) is None ==> r == Err::<Vec<PlicOp>, ContextError>(
            ContextError::InvalidMode,
        ),
        mode_offset(mode) is Some ==> r is Ok && r.unwrap()@ == init_hart_ops(
            board,
            hart_id as int,
        ).push(
            PlicOp::Enable {
                context: context_index(hart_id as int, mode) as usize,
                irq: (first_serial_irq(board) + hart_id) as u16,
            },
        ),
{
    let context = match context_of(hart_id, mode) {
        Ok(context) => context,
        Err(e) => {
            return Err(e);
        },
    };
    let mut ops = init_hart(board, hart_id);
    ops.push(PlicOp::Enable { context, irq: speed_test_irq(board, hart_id) });
    Ok(ops)
}

/// Timer ticks that `ms` milliseconds last on `board`; `None` if the number
/// does not fit a machine word.
pub fn delay_ticks(board: Board, ms: usize) -> (ticks: Option<usize>)
    ensures
        clock_freq_of(board) * ms <= usize::MAX ==> ticks == Some(
            ((clock_freq_of(board) * ms) / 1000) as usize,
        ),
        clock_freq_of(board) * ms > usize::MAX ==> ticks is None,
{
    match clock_freq(board).checked_mul(ms) {
        Some(product) => Some(product / 1000),
        None => None,
    }
}

/// A serial port under test, with the digest of its traffic.
#[derive(Debug)]
pub struct SpeedTest {
    port: PollingSerial,
    pattern: u8,
    hasher: Hasher,
}

impl SpeedTest {
    /// The digest can be taken: the hash state is one of the regular hash
    /// function and stands at the start of its input.
    pub closed spec fn wf(&self) -> bool {
        hasher_input_offset(self.hasher) == 0 && hasher_regular(self.hasher)
    }

    /// The port's counters.
    pub closed spec fn spec_port(&self) -> PollingSerial {
        self.port
    }

    /// The byte that the test sends.
    pub closed spec fn pattern(&self) -> u8 {
        self.pattern
    }

    /// Every byte that was sent or received so far, in order.
    pub closed spec fn transferred(&self) -> Seq<u8> {
        hasher_input(self.hasher)
    }

    /// A test of the port at `base_address` that sends `pattern`. Nothing
    /// has been transferred yet.
    pub fn new(base_address: usize, pattern: u8) -> (test: SpeedTest)
        ensures
            test.wf(),
            test.spec_port() == (PollingSerial {
                base_address,
                rx_count: 0,
                tx_count: 0,
                tx_fifo_count: 0,
            }),
            test.pattern() == pattern,
            test.transferred() == Seq::<u8>::empty(),
    {
        SpeedTest { port: PollingSerial::new(base_address), pattern, hasher: hasher_new() }
    }

    /// The port's counters.
    #[verifier::when_used_as_spec(spec_port)]
    pub fn port(&self) -> (port: PollingSerial)
        ensures
            port == self.spec_port(),
    {
        self.port
    }

    /// Whether the next attempt to send has to look at the line status
    /// register: only while the port's queue is counted full.
    pub fn needs_line_status(&self) -> (needed: bool)
        ensures
            needed == (self.port().tx_fifo_count >= FIFO_DEPTH),
    {
        self.port.needs_line_status()
    }

    /// One attempt to send, given the contents `lsr` of the line status
    /// register, which are looked at only while the queue is counted full. Where the port blocks, nothing changes. Else the pattern
    /// byte is accounted for and added to the traffic, and is handed back
    /// for the caller to write to the device.
    pub fn write(&mut self, lsr: u8) -> (r: Result<u8, WouldBlock>)
        requires
            old(self).wf(),
        ensures
            final(self).wf(),
            final(self).pattern() == old(self).pattern(),
            old(self).port().tx_fifo_count >= FIFO_DEPTH && lsr & 0x20 == 0 ==> r is Err && final(self).port() == old(self).port() && final(self).transferred() == old(self).transferred(),
            !(old(self).port().tx_fifo_count >= FIFO_DEPTH && lsr & 0x20 == 0) ==> r == Ok::<
                u8,
                WouldBlock,
            >(old(self).pattern()) && final(self).port() == old(self).port().sent() && final(self).transferred() == old(self).transferred().push(old(self).pattern()),
    {
        match self.port.try_write(lsr) {
            Ok(()) => {
                hasher_update(&mut self.hasher, self.pattern);
                Ok(self.pattern)
            },
            Err(e) => Err(e),
        }
    }

    /// Accounts for the answer of the device to one attempt to receive: a
    /// byte is counted, added to the traffic and handed on; no byte blocks
    /// and changes nothing.
    pub fn read(&mut self, byte: Option<u8>) -> (r: Result<u8, WouldBlock>)
        requires
            old(self).wf(),
        ensures
            final(self).wf(),
            final(self).pattern() == old(self).pattern(),
            byte matches Some(ch) ==> r == Ok::<u8, WouldBlock>(ch) && final(self).transferred()
                == old(self).transferred().push(ch) && final(self).port() == (PollingSerial {
                rx_count: if old(self).port().rx_count == usize::MAX {
                    0
                } else {
                    (old(self).port().rx_count + 1) as usize
                },
                ..old(self).port()
            }),
            byte is None ==> r is Err && final(self).port() == old(self).port() && final(self).transferred() == old(self).transferred(),
    {
        match self.port.try_read(byte) {
            Ok(ch) => {
                hasher_update(&mut self.hasher, ch);
                Ok(ch)
            },
            Err(e) => Err(e),
        }
    }

    /// The BLAKE3 hash of the traffic so far.
    pub fn digest(&self) -> (digest: [u8; 32])
        requires
            self.wf(),
        ensures
            digest@ == blake3_hash(self.transferred()),
    {
        hasher_finalize(&self.hasher)
    }
}

} // verus!
