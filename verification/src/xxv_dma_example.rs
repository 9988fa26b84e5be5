//! The loop-back test of the Ethernet DMA engine: the frame that is sent,
//! and what the test does with a pending interrupt.

use vstd::prelude::*;
use crate::config::Board;
use crate::plic::{context_index, context_of, first_serial_irq, init_hart, init_hart_ops};
use crate::plic::{mode_offset, ContextError, PlicOp};

verus! {

/// Bytes of a hardware address.
pub const XXE_MAC_ADDR_SIZE: usize = 6;

/// Bytes of a frame header: two addresses and the type or length.
pub const XXE_HDR_SIZE: usize = 14;

/// Bytes of payload that the header announces.
pub const PAYLOAD_SIZE: usize = 8900;

/// Bytes that `fill_frame` writes: the header, the bytes 0 to 255, and the
/// two bytes of the counter after them.
pub const FILLED_SIZE: usize = 272;

/// Interrupt source of the transmit channel.
pub const MM2S_IRQ: u16 = 2;

/// Interrupt source of the receive channel.
pub const S2MM_IRQ: u16 = 3;

/// Address of the sender.
pub open spec fn src_mac_addr() -> Seq<u8> {
    seq![0x00u8, 0x0A, 0x35, 0x01, 0x02, 0x03]
}

/// Address of the receiver.
pub open spec fn dest_mac_addr() -> Seq<u8> {
    seq![0x00u8, 0x16, 0x31, 0xf3, 0xc9, 0xad]
}

/// The frame that `fill_frame` makes of a buffer with the contents `old`:
/// receiver, sender, the payload size in network byte order, the bytes 0 to
/// 255, then 1 and 0; the rest of the buffer is left as it was.
pub open spec fn filled_frame(old: Seq<u8>) -> Seq<u8> {
    Seq::new(
        old.len(),
        |i: int|
            if i < 6 {
                dest_mac_addr()[i]
            } else if i < 12 {
                src_mac_addr()[i - 6]
            } else if i == 12 {
                0x22u8
            } else if i == 13 {
                0xc4u8
            } else if i < 270 {
                (i - 14) as u8
            } else if i == 270 {
                1u8
            } else if i == 271 {
                0u8
            } else {
                old[i]
            },
    )
}

/// Fills `tx_frame` with the test frame. The buffer has to hold the 272
/// bytes that are written.
pub fn fill_frame(tx_frame: &mut [u8])
    requires
        old(tx_frame)@.len() >= FILLED_SIZE,
    ensures
        final(tx_frame)@ == filled_frame(old(tx_frame)@),
{
    let dest: [u8; 6] = [0x00, 0x16, 0x31, 0xf3, 0xc9, 0xad];
    let src: [u8; 6] = [0x00, 0x0A, 0x35, 0x01, 0x02, 0x03];
    let ghost target = filled_frame(old(tx_frame)@);
    let mut i: usize = 0;
    while i < XXE_MAC_ADDR_SIZE
        invariant
            i <= 6,
            tx_frame@.len() == old(tx_frame)@.len(),
            tx_frame@.len() >= 272,
            target == filled_frame(old(tx_frame)@),
            dest@ == dest_mac_addr(),
            forall|k: int| 0 <= k < i ==> tx_frame@[k] == target[k],
            forall|k: int| i <= k < tx_frame@.len() ==> tx_frame@[k] == old(tx_frame)@[k],
        decreases 6 - i,
    {
        tx_frame[i] = dest[i];
        i += 1;
    }
    let mut i: usize = 0;
    while i < XXE_MAC_ADDR_SIZE
        invariant
            i <= 6,
            tx_frame@.len() == old(tx_frame)@.len(),
            tx_frame@.len() >= 272,
            target == filled_frame(old(tx_frame)@),
            src@ == src_mac_addr(),
            forall|k: int| 0 <= k < 6 + i ==> tx_frame@[k] == target[k],
            forall|k: int| 6 + i <= k < tx_frame@.len() ==> tx_frame@[k] == old(tx_frame)@[k],
        decreases 6 - i,
    {
        tx_frame[i + XXE_MAC_ADDR_SIZE] = src[i];
        i += 1;
    }
    let size: u16 = 8900;
    assert(size >> 8 == 0x22 && size & 0xff == 0xc4) by (bit_vector)
        requires
            size == 8900,
    ;
    tx_frame[2 * XXE_MAC_ADDR_SIZE] = (size >> 8) as u8;
    tx_frame[2 * XXE_MAC_ADDR_SIZE + 1] = (size & 0xff) as u8;

    let mut payload_size: usize = PAYLOAD_SIZE;
    let mut counter: u16 = 0;
    let mut idx: usize = XXE_HDR_SIZE;
    while payload_size > 0 && counter < 256
        invariant
            counter <= 256,
            idx == 14 + counter,
            payload_size == 8900 - counter,
            tx_frame@.len() == old(tx_frame)@.len(),
            tx_frame@.len() >= 272,
            target == filled_frame(old(tx_frame)@),
            forall|k: int| 0 <= k < idx ==> tx_frame@[k] == target[k],
            forall|k: int| idx <= k < tx_frame@.len() ==> tx_frame@[k] == old(tx_frame)@[k],
        decreases 256 - counter,
    {
        tx_frame[idx] = counter as u8;
        counter += 1;
        idx += 1;
        payload_size -= 1;
    }
    while payload_size > 0
        invariant
            counter == 256,
            idx == 270,
            tx_frame@.len() == old(tx_frame)@.len(),
            tx_frame@.len() >= 272,
            target == filled_frame(old(tx_frame)@),
            forall|k: int| 0 <= k < 270 ==> tx_frame@[k] == target[k],
            payload_size < 8644 ==> tx_frame@[270] == 1 && tx_frame@[271] == 0,
            payload_size <= 8644,
            forall|k: int| 272 <= k < tx_frame@.len() ==> tx_frame@[k] == old(tx_frame)@[k],
        decreases payload_size,
    {
        let high = counter >> 8;
        let low = counter & 0xff;
        assert(high == 1 && low == 0) by (bit_vector)
            requires
                counter == 256,
                high == counter >> 8,
                low == counter & 0xff,
        ;
        tx_frame[idx] = high as u8;
        tx_frame[idx + 1] = low as u8;
        payload_size -= 1;
    }
    assert(tx_frame@ =~= target);
}

/// Channel of the DMA engine that an interrupt source belongs to.
#[derive(Clone, Copy, Debug, PartialEq, Eq, Structural)]
pub enum DmaInterrupt {
    /// The transmit channel.
    Mm2s,
    /// The receive channel.
    S2mm,
    /// Not a source of the engine.
    Unsupported,
}

/// The channel behind the source `irq`.
pub open spec fn dma_interrupt_of(irq: u16) -> DmaInterrupt {
    if irq == MM2S_IRQ {
        DmaInterrupt::Mm2s
    } else if irq == S2MM_IRQ {
        DmaInterrupt::S2mm
    } else {
        DmaInterrupt::Unsupported
    }
}

/// One step of the test's interrupt service, to be carried out by the caller.
#[derive(Clone, Copy, Debug, PartialEq, Eq, Structural)]
pub enum DmaAction {
    /// Run the interrupt handler of `channel`; for a source that is none
    /// of the engine's, report it.
    Handle { channel: DmaInterrupt },
    /// Release the claim of `context` on the source `irq`.
    Complete { context: usize, irq: u16 },
    /// Store `value` as the source that `hart` has noted as pending.
    StoreNoted { hart: usize, value: u16 },
}

/// What the test does with the source `irq` that `hart_id` has noted as
/// pending, zero standing for none.
pub open spec fn intr_steps(hart_id: usize, context: usize, irq: u16) -> Seq<DmaAction> {
    if irq == 0 {
        Seq::empty()
    } else {
        seq![
            DmaAction::Handle { channel: dma_interrupt_of(irq) },
            DmaAction::Complete { context, irq },
            DmaAction::StoreNoted { hart: hart_id, value: 0 },
        ]
    }
}

/// One round of the test's interrupt service for `hart_id`, given the
/// source `irq` that the hart has noted as pending, zero standing for none.
/// For none there is nothing to do. Else the handler of the source's
/// channel runs once, then the claim of `context` on the source is
/// completed once, and only then the hart's own note is set back to zero.
/// The note of no other hart is read or named.
pub fn intr_handler(hart_id: usize, context: usize, irq: u16) -> (steps: Vec<DmaAction>)
    ensures
        steps@ == intr_steps(hart_id, context, irq),
        irq == 0 ==> steps@ == Seq::<DmaAction>::empty(),
        irq != 0 ==> steps@ == seq![
            DmaAction::Handle { channel: dma_interrupt_of(irq) },
            DmaAction::Complete { context, irq },
            DmaAction::StoreNoted { hart: hart_id, value: 0 },
        ],
{
    let mut steps: Vec<DmaAction> = Vec::new();
    if irq != 0 {
        let channel = match irq {
            2 => DmaInterrupt::Mm2s,
            3 => DmaInterrupt::S2mm,
            _ => DmaInterrupt::Unsupported,
        };
        steps.push(DmaAction::Handle { channel });
        steps.push(DmaAction::Complete { context, irq });
        steps.push(DmaAction::StoreNoted { hart: hart_id, value: 0 });
    }
    assert(steps@ =~= intr_steps(hart_id, context, irq));
    steps
}

/// One step of the controller's part in the test.
#[derive(Clone, Copy, Debug, PartialEq, Eq, Structural)]
pub enum DmaControllerStep {
    /// Carry out the operation.
    Apply { op: PlicOp },
    /// Claim once from `context` and drop what comes back.
    ClaimAndDrop { context: usize },
}

/// What the test does to the controller for one of the engine's sources
/// before it starts: the source is made visible to `context`, and a claim
/// that may be left over on it is taken and released.
pub open spec fn dma_source_steps(context: usize, irq: u16) -> Seq<DmaControllerStep> {
    seq![
        DmaControllerStep::Apply { op: PlicOp::Enable { context, irq } },
        DmaControllerStep::ClaimAndDrop { context },
        DmaControllerStep::Apply { op: PlicOp::Complete { context, irq } },
    ]
}

/// The controller's part before the test of `hart_id`, where `context` is
/// the hart's context at the level of the test: the hart's contexts are
/// brought up, then the engine's two sources are dealt with in turn.
pub open spec fn dma_setup_steps(board: Board, hart_id: int, context: usize) -> Seq<
    DmaControllerStep,
> {
    init_hart_ops(board, hart_id).map(|i: int, op: PlicOp| DmaControllerStep::Apply { op })
        + dma_source_steps(context, MM2S_IRQ) + dma_source_steps(context, S2MM_IRQ)
}

/// The controller's part before the test of `hart_id` at privilege level
/// `mode`. An unknown mode is an error.
pub fn dma_test_setup(board: Board, hart_id: usize, mode: char) -> (r: Result<
    Vec<DmaControllerStep>,
    ContextError,
>)
    requires
        first_serial_irq(board) + hart_id <= u16::MAX,
    ensures
        mode_offset(mode) is None ==> r == Err::<Vec<DmaControllerStep>, ContextError>(
            ContextError::InvalidMode,
        ),
        mode_offset(mode) is Some ==> r is Ok && r.unwrap()@ == dma_setup_steps(
            board,
            hart_id as int,
            context_index(hart_id as int, mode) as usize,
        ),
{
    let context = match context_of(hart_id, mode) {
        Ok(context) => context,
        Err(e) => {
            return Err(e);
        },
    };
    let ops = init_hart(board, hart_id);
    let mut steps: Vec<DmaControllerStep> = Vec::new();
    let mut i: usize = 0;
    while i < ops.len()
        invariant
            i <= ops@.len(),
            steps@.len() == i,
            forall|k: int| 0 <= k < i ==> steps@[k] == (DmaControllerStep::Apply { op: ops@[k] }),
        decreases ops@.len() - i,
    {
        steps.push(DmaControllerStep::Apply { op: ops[i] });
        i += 1;
    }
    let ghost head = steps@;
    assert(head =~= ops@.map(|i: int, op: PlicOp| DmaControllerStep::Apply { op }));
    let mut irq: u16 = MM2S_IRQ;
    while irq <= S2MM_IRQ
        invariant
            MM2S_IRQ <= irq <= S2MM_IRQ + 1,
            steps@ == head + (if irq > MM2S_IRQ {
                dma_source_steps(context, MM2S_IRQ)
            } else {
                Seq::empty()
            }) + (if irq > S2MM_IRQ {
                dma_source_steps(context, S2MM_IRQ)
            } else {
                Seq::empty()
            }),
        decreases S2MM_IRQ + 1 - irq,
    {
        let ghost before = steps@;
        steps.push(DmaControllerStep::Apply { op: PlicOp::Enable { context, irq } });
        steps.push(DmaControllerStep::ClaimAndDrop { context });
        steps.push(DmaControllerStep::Apply { op: PlicOp::Complete { context, irq } });
        assert(steps@ =~= before + dma_source_steps(context, irq));
        irq += 1;
        assert(steps@ =~= head + (if irq > MM2S_IRQ {
            dma_source_steps(context, MM2S_IRQ)
        } else {
            Seq::empty()
        }) + (if irq > S2MM_IRQ {
            dma_source_steps(context, S2MM_IRQ)
        } else {
            Seq::empty()
        }));
    }
    assert(steps@ =~= dma_setup_steps(board, hart_id as int, context));
    Ok(steps)
}

/// The controller's part after the test: both of the engine's sources are
/// hidden from the context of `hart_id` at privilege level `mode` again. An
/// unknown mode is an error.
pub fn dma_test_teardown(hart_id: usize, mode: char) -> (r: Result<Vec<PlicOp>, ContextError>)
    ensures
        mode_offset(mode) is None ==> r == Err::<Vec<PlicOp>, ContextError>(
            ContextError::InvalidMode,
        ),
        mode_offset(mode) is Some && context_index(hart_id as int, mode) > usize::MAX ==> r
            == Err::<Vec<PlicOp>, ContextError>(ContextError::HartOutOfRange),
        mode_offset(mode) is Some && context_index(hart_id as int, mode) <= usize::MAX ==> r
            is Ok && r.unwrap()@ == seq![
            PlicOp::Disable { context: context_index(hart_id as int, mode) as usize, irq: MM2S_IRQ },
            PlicOp::Disable { context: context_index(hart_id as int, mode) as usize, irq: S2MM_IRQ },
        ],
{
    let context = match context_of(hart_id, mode) {
        Ok(context) => context,
        Err(e) => {
            return Err(e);
        },
    };
    let mut ops: Vec<PlicOp> = Vec::new();
    ops.push(PlicOp::Disable { context, irq: MM2S_IRQ });
    ops.push(PlicOp::Disable { context, irq: S2MM_IRQ });
    assert(ops@ =~= seq![
        PlicOp::Disable { context, irq: MM2S_IRQ },
        PlicOp::Disable { context, irq: S2MM_IRQ },
    ]);
    Ok(ops)
}

} // verus!
