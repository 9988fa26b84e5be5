//! The register of the DMA engine's receive channel that holds the upper
//! thirty-two bits of the address of the current buffer descriptor.

use vstd::prelude::*;

verus! {

/// Marker of the register. Its reset value is zero.
#[allow(non_camel_case_types)]
#[derive(Clone, Copy, Debug, PartialEq, Eq, Structural)]
pub struct S2MM_CURDESC_MSB_SPEC;

/// Value of the register after reset.
pub const RESET_VALUE: u32 = 0;

/// What was read from the register.
#[derive(Clone, Copy, Debug, PartialEq, Eq, Structural)]
pub struct R {
    bits: u32,
}

/// What is to be written to the register.
#[derive(Debug, PartialEq, Eq)]
pub struct W {
    bits: u32,
}

impl R {
    /// The bits that were read.
    pub closed spec fn bits(&self) -> u32 {
        self.bits
    }

    /// A reader over the bits `bits`.
    pub fn new(bits: u32) -> (r: R)
        ensures
            r.bits() == bits,
    {
        R { bits }
    }

    /// Bits 0 to 31: the pointer to the buffer descriptor that is worked on.
    pub fn curdesc_ptr(&self) -> (field: u32)
        ensures
            field == self.bits(),
    {
        self.bits
    }
}

impl W {
    /// The bits that will be written.
    pub closed spec fn value(&self) -> u32 {
        self.bits
    }

    /// A writer that starts from the register's reset value.
    pub fn new() -> (w: W)
        ensures
            w.value() == RESET_VALUE,
    {
        W { bits: RESET_VALUE }
    }

    /// Bits 0 to 31: the pointer to the buffer descriptor that is worked on.
    /// What is stored through the reference is what will be written.
    #[must_use]
    pub fn curdesc_ptr(&mut self) -> (field: &mut u32)
        ensures
            *field == old(self).value(),
            final(self).value() == *final(field),
    {
        &mut self.bits
    }

    /// Sets all bits of the register at once.
    pub fn bits(&mut self, bits: u32) -> (w: &mut Self)
        ensures
            w.value() == bits,
            final(self).value() == final(w).value(),
    {
        self.bits = bits;
        self
    }

    /// The bits that will be written.
    pub fn into_bits(self) -> (bits: u32)
        ensures
            bits == self.value(),
    {
        self.bits
    }
}

} // verus!
