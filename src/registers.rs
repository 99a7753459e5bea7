//! The PL031 register block: where each register lies, what a driver writes
//! to it, and how a status register is read.
use vstd::prelude::*;

verus! {

/// Byte offset of the Data register (32 bits, read only): the current time.
pub const DATA_OFFSET: usize = 0x00;

/// Byte offset of the Match register (32 bits, read/write).
pub const MATCH_OFFSET: usize = 0x04;

/// Byte offset of the Load register (32 bits, write): sets the current time.
pub const LOAD_OFFSET: usize = 0x08;

/// Byte offset of the Control register (8 bits, then 3 bytes of padding).
pub const CONTROL_OFFSET: usize = 0x0C;

/// Byte offset of the Interrupt Mask register (8 bits, then 3 bytes of padding).
pub const MASK_OFFSET: usize = 0x10;

/// Byte offset of the Raw Interrupt Status register (8 bits, read only).
pub const RAW_STATUS_OFFSET: usize = 0x14;

/// Byte offset of the Masked Interrupt Status register (8 bits, read only).
pub const MASKED_STATUS_OFFSET: usize = 0x18;

/// Byte offset of the Interrupt Clear register (8 bits, write).
pub const CLEAR_OFFSET: usize = 0x1C;

/// Size in bytes of the whole register block.
pub const BLOCK_SIZE: usize = 0x20;

/// The value written to the Interrupt Clear register to clear a latched interrupt.
pub const INTERRUPT_CLEAR: u8 = 0x01;

/// Whether bit 0 of an 8-bit status or mask register is set.
pub open spec fn bit0(reg: u8) -> bool {
    reg & 1u8 != 0
}

/// The flag values written to 8-bit registers read back as set and clear.
pub proof fn lemma_bit0_of_flags()
    ensures
        bit0(1u8),
        !bit0(0u8),
{
    assert(1u8 & 1u8 != 0) by (bit_vector);
    assert(0u8 & 1u8 == 0) by (bit_vector);
}

/// Reads bit 0 of a status register: the match condition (raw status) or the
/// pending interrupt (masked status).
pub fn status_bit(reg: u8) -> (r: bool)
    ensures
        r == bit0(reg),
{
    (reg & 0x01) != 0
}

/// The value written to the Interrupt Mask register to enable (1) or
/// disable (0) the match interrupt.
pub fn mask_value(enable: bool) -> (r: u8)
    ensures
        r == (if enable { 1u8 } else { 0u8 }),
        bit0(r) == enable,
{
    proof {
        lemma_bit0_of_flags();
    }
    if enable {
        0x01
    } else {
        0x00
    }
}

/// The contents of a PL031 register block, one field per register, as the
/// driver observes them.
#[derive(Clone, Copy, Debug, PartialEq, Eq, Structural)]
pub struct Registers {
    /// Data register: the current time in seconds since the UNIX epoch.
    pub dr: u32,
    /// Match register.
    pub mr: u32,
    /// Load register: the last time loaded.
    pub lr: u32,
    /// Control register.
    pub cr: u8,
    /// Interrupt Mask register.
    pub imsc: u8,
    /// Raw Interrupt Status register.
    pub ris: u8,
    /// Masked Interrupt Status register.
    pub mis: u8,
    /// Interrupt Clear register: the last value written to it.
    pub icr: u8,
}

impl Registers {
    /// The match condition: the current time equals the match value.
    pub open spec fn matches(self) -> bool {
        self.dr == self.mr
    }

    /// The match interrupt is enabled in the mask register.
    pub open spec fn interrupt_enabled(self) -> bool {
        bit0(self.imsc)
    }

    /// What the Raw Interrupt Status register reports.
    pub open spec fn raw_status(self) -> bool {
        bit0(self.ris)
    }

    /// What the Masked Interrupt Status register reports.
    pub open spec fn masked_status(self) -> bool {
        bit0(self.mis)
    }

    /// The status registers agree with the rest of the block: the raw status
    /// is the match condition, and the masked status is the raw status gated
    /// by the mask.
    pub open spec fn consistent(self) -> bool {
        &&& self.raw_status() == self.matches()
        &&& self.masked_status() == (self.raw_status() && self.interrupt_enabled())
    }

    /// The block with both status registers as the device computes them from
    /// the Data, Match and Mask registers.
    pub open spec fn with_status(self) -> Registers {
        Registers {
            ris: if self.matches() { 1u8 } else { 0u8 },
            mis: if self.matches() && self.interrupt_enabled() { 1u8 } else { 0u8 },
            ..self
        }
    }

    /// The block after the Load register is written with `v`: the time
    /// continues from `v`.
    pub open spec fn loaded(self, v: u32) -> Registers {
        Registers { dr: v, lr: v, ..self }.with_status()
    }

    /// The block after the Match register is written with `v`.
    pub open spec fn with_match(self, v: u32) -> Registers {
        Registers { mr: v, ..self }.with_status()
    }

    /// The block after the Interrupt Mask register is written to enable or
    /// disable the interrupt.
    pub open spec fn with_mask(self, enable: bool) -> Registers {
        Registers { imsc: if enable { 1u8 } else { 0u8 }, ..self }.with_status()
    }

    /// The block after the Interrupt Clear register is written. The status
    /// registers follow the match condition, so a clear while the time still
    /// equals the match value latches the interrupt again at once.
    pub open spec fn cleared(self) -> Registers {
        Registers { icr: INTERRUPT_CLEAR, ..self }.with_status()
    }

    /// Recomputes both status registers from the Data, Match and Mask
    /// registers.
    pub fn settle(self) -> (r: Registers)
        ensures
            r == self.with_status(),
            r.consistent(),
    {
        proof {
            lemma_bit0_of_flags();
        }
        let matched = self.dr == self.mr;
        let enabled = status_bit(self.imsc);
        Registers {
            ris: if matched { 1 } else { 0 },
            mis: if matched && enabled { 1 } else { 0 },
            ..self
        }
    }
}

/// Recomputing the status registers always leaves the block consistent.
pub proof fn lemma_with_status_consistent(regs: Registers)
    ensures
        regs.with_status().consistent(),
{
    lemma_bit0_of_flags();
}

} // verus!
