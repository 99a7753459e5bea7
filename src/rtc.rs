//! The register interface: each operation is one access to one register of
//! the block, with the effect that the device gives it.
use vstd::prelude::*;
use crate::registers::{
    lemma_bit0_of_flags, lemma_with_status_consistent, mask_value, status_bit, Registers, INTERRUPT_CLEAR,
};

verus! {

/// The real-time clock: a PL031 register block, reached only through the
/// operations below.
pub struct Rtc {
    regs: Registers,
}

impl View for Rtc {
    type V = Registers;

    closed spec fn view(&self) -> Registers {
        self.regs
    }
}

impl Rtc {
    #[verifier::type_invariant]
    spec fn inv(self) -> bool {
        self.regs.consistent()
    }

    /// A clock over a register block holding `registers`; the status
    /// registers report the match condition of the other registers.
    pub fn new(registers: Registers) -> (r: Rtc)
        ensures
            r@ == registers.with_status(),
            r@.consistent(),
    {
        Rtc { regs: registers.settle() }
    }

    /// A copy of the whole register block.
    pub fn registers(&self) -> (r: Registers)
        ensures
            r == self@,
            r.consistent(),
    {
        proof {
            use_type_invariant(self);
        }
        self.regs
    }

    /// Returns the current time in seconds since the UNIX epoch: a read of
    /// the Data register.
    pub fn get_unix_timestamp(&self) -> (r: u32)
        ensures
            r == self@.dr,
    {
        self.regs.dr
    }

    /// Sets the current time in seconds since the UNIX epoch: a write of the
    /// Load register.
    pub fn set_unix_timestamp(&mut self, unix_time: u32)
        ensures
            final(self)@ == old(self)@.loaded(unix_time),
            final(self)@.consistent(),
    {
        let regs = Registers { dr: unix_time, lr: unix_time, ..self.regs };
        self.regs = regs.settle();
    }

    /// Writes the match value. When the time equals it, the match interrupt is
    /// raised (and is pending if it is enabled).
    pub fn set_match_timestamp(&mut self, match_timestamp: u32)
        ensures
            final(self)@ == old(self)@.with_match(match_timestamp),
            final(self)@.consistent(),
    {
        let regs = Registers { mr: match_timestamp, ..self.regs };
        self.regs = regs.settle();
    }

    /// Whether the match register equals the time, whether or not the
    /// interrupt is enabled: bit 0 of the Raw Interrupt Status register.
    pub fn matched(&self) -> (r: bool)
        ensures
            r == self@.raw_status(),
            r == self@.matches(),
    {
        proof {
            use_type_invariant(self);
        }
        status_bit(self.regs.ris)
    }

    /// Whether an interrupt is pending: bit 0 of the Masked Interrupt Status
    /// register, set exactly when the match condition holds and the interrupt
    /// is enabled.
    pub fn interrupt_pending(&self) -> (r: bool)
        ensures
            r == self@.masked_status(),
            r == (self@.matches() && self@.interrupt_enabled()),
    {
        proof {
            use_type_invariant(self);
        }
        status_bit(self.regs.mis)
    }

    /// Enables (`mask` true) or disables the match interrupt: a write of the
    /// Interrupt Mask register.
    pub fn enable_interrupt(&mut self, mask: bool)
        ensures
            final(self)@ == old(self)@.with_mask(mask),
            final(self)@.interrupt_enabled() == mask,
            final(self)@.consistent(),
    {
        let imsc = mask_value(mask);
        let regs = Registers { imsc, ..self.regs };
        self.regs = regs.settle();
    }

    /// Clears a pending interrupt, if any: a write of the Interrupt Clear
    /// register.
    pub fn clear_interrupt(&mut self)
        ensures
            final(self)@ == old(self)@.cleared(),
            final(self)@.consistent(),
    {
        let regs = Registers { icr: INTERRUPT_CLEAR, ..self.regs };
        self.regs = regs.settle();
    }
}

/// Loading a time and then reading the Data register gives that time back.
pub proof fn lemma_load_then_read(regs: Registers, v: u32)
    ensures
        regs.loaded(v).dr == v,
{
}

/// Writing the Match register and reading it back gives the value written.
pub proof fn lemma_match_then_read(regs: Registers, v: u32)
    ensures
        regs.with_match(v).mr == v,
{
}

/// In every state of the clock the raw status is set exactly when the Data
/// register equals the Match register.
pub proof fn lemma_matched_iff_equal(regs: Registers)
    requires
        regs.consistent(),
    ensures
        regs.raw_status() <==> regs.dr == regs.mr,
{
}

/// In every state of the clock an interrupt is pending exactly when the
/// match condition holds and the interrupt is enabled.
pub proof fn lemma_pending_iff_matched_and_enabled(regs: Registers)
    requires
        regs.consistent(),
    ensures
        regs.masked_status() <==> (regs.raw_status() && regs.interrupt_enabled()),
{
}

/// After the interrupt is enabled or disabled, the Mask register holds 1 or
/// 0, and an interrupt is pending exactly when the match condition holds and
/// the interrupt was enabled: in all four combinations of the two.
pub proof fn lemma_pending_after_mask(regs: Registers, enable: bool)
    ensures
        regs.with_mask(enable).imsc == (if enable { 1u8 } else { 0u8 }),
        regs.with_mask(enable).masked_status() <==> (regs.dr == regs.mr && enable),
        regs.with_mask(enable).raw_status() <==> regs.dr == regs.mr,
{
    lemma_bit0_of_flags();
}

/// Every write leaves the status registers consistent with the block.
pub proof fn lemma_writes_keep_status(regs: Registers, v: u32, enable: bool)
    ensures
        regs.loaded(v).consistent(),
        regs.with_match(v).consistent(),
        regs.with_mask(enable).consistent(),
        regs.cleared().consistent(),
{
    lemma_with_status_consistent(Registers { dr: v, lr: v, ..regs });
    lemma_with_status_consistent(Registers { mr: v, ..regs });
    lemma_with_status_consistent(Registers { imsc: if enable { 1u8 } else { 0u8 }, ..regs });
    lemma_with_status_consistent(Registers { icr: INTERRUPT_CLEAR, ..regs });
}

/// After an interrupt is cleared, no interrupt is pending while the Data
/// register differs from the Match register.
pub proof fn lemma_clear_then_not_pending(regs: Registers)
    requires
        regs.dr != regs.mr,
    ensures
        !regs.cleared().masked_status(),
{
    lemma_with_status_consistent(Registers { icr: INTERRUPT_CLEAR, ..regs });
}

} // verus!
