//! Status register of one channel.
use crate::pac::generic::{
    BitReader, BitWriter, FieldReader, FieldWriter, Readable, RegisterSpec, Resettable, Writable,
    bit_of, field_of, lemma_mask_values, raw_bit, raw_field, with_bit,
};
use vstd::prelude::*;

verus! {

/// Names this register: status register of one channel.
pub struct DmasrSpec;

impl RegisterSpec for DmasrSpec {

}

impl Readable for DmasrSpec {

}

impl Writable for DmasrSpec {

}

impl Resettable for DmasrSpec {
    open spec fn spec_reset_value() -> u32 {
        0
    }

    fn reset_value() -> u32 {
        0
    }
}

/// What a read of this register returns.
pub type R = crate::pac::generic::R<DmasrSpec>;

/// What a write to this register takes.
pub type W = crate::pac::generic::W<DmasrSpec>;

/// Run state of the channel as the device reports it.
#[derive(Clone, Copy, Debug, PartialEq, Eq)]
pub enum Halted {
    /// Bit clear: the channel is running.
    Running,
    /// Bit set: the channel has stopped.
    Halted,
}

/// The `halted` bit as read.
pub type HaltedR = BitReader<Halted>;

impl HaltedR {
    /// The bit as a named value.
    pub fn variant(&self) -> (value: Halted)
        ensures
            value == (if self@ {
                Halted::Halted
            } else {
                Halted::Running
            }),
    {
        if self.bit() {
            Halted::Halted
        } else {
            Halted::Running
        }
    }

    /// Whether the bit is clear: the channel is running.
    pub fn is_running(&self) -> (yes: bool)
        ensures
            yes == !self@,
    {
        !self.bit()
    }

    /// Whether the bit is set: the channel has stopped.
    pub fn is_halted(&self) -> (yes: bool)
        ensures
            yes == self@,
    {
        self.bit()
    }
}

/// A pending write of the `halted` bit.
pub type HaltedW<REG> = BitWriter<REG, Halted>;

impl<REG> HaltedW<REG> {
    /// Clears the bit: the channel is running.
    pub fn running(self) -> (w: crate::pac::generic::W<REG>)
        ensures
            w@ == with_bit(self.before(), self.offset(), false),
    {
        self.bit(false)
    }

    /// Sets the bit: the channel has stopped.
    pub fn halted(self) -> (w: crate::pac::generic::W<REG>)
        ensures
            w@ == with_bit(self.before(), self.offset(), true),
    {
        self.bit(true)
    }
}

/// Whether the channel has reached the tail descriptor and paused.
#[derive(Clone, Copy, Debug, PartialEq, Eq)]
pub enum Idle {
    /// Bit clear: the channel is working.
    NotIdle,
    /// Bit set: the channel is paused at the tail.
    Idle,
}

/// The `idle` bit as read.
pub type IdleR = BitReader<Idle>;

impl IdleR {
    /// The bit as a named value.
    pub fn variant(&self) -> (value: Idle)
        ensures
            value == (if self@ {
                Idle::Idle
            } else {
                Idle::NotIdle
            }),
    {
        if self.bit() {
            Idle::Idle
        } else {
            Idle::NotIdle
        }
    }

    /// Whether the bit is clear: the channel is working.
    pub fn is_not_idle(&self) -> (yes: bool)
        ensures
            yes == !self@,
    {
        !self.bit()
    }

    /// Whether the bit is set: the channel is paused at the tail.
    pub fn is_idle(&self) -> (yes: bool)
        ensures
            yes == self@,
    {
        self.bit()
    }
}

/// A pending write of the `idle` bit.
pub type IdleW<REG> = BitWriter<REG, Idle>;

impl<REG> IdleW<REG> {
    /// Clears the bit: the channel is working.
    pub fn not_idle(self) -> (w: crate::pac::generic::W<REG>)
        ensures
            w@ == with_bit(self.before(), self.offset(), false),
    {
        self.bit(false)
    }

    /// Sets the bit: the channel is paused at the tail.
    pub fn idle(self) -> (w: crate::pac::generic::W<REG>)
        ensures
            w@ == with_bit(self.before(), self.offset(), true),
    {
        self.bit(true)
    }
}

/// Whether the device was built with the scatter-gather engine.
#[derive(Clone, Copy, Debug, PartialEq, Eq)]
pub enum SgIncld {
    /// Bit clear: direct register mode only.
    SgDisabled,
    /// Bit set: scatter-gather mode is available.
    SgEnabled,
}

/// The `sg_incld` bit as read.
pub type SgIncldR = BitReader<SgIncld>;

impl SgIncldR {
    /// The bit as a named value.
    pub fn variant(&self) -> (value: SgIncld)
        ensures
            value == (if self@ {
                SgIncld::SgEnabled
            } else {
                SgIncld::SgDisabled
            }),
    {
        if self.bit() {
            SgIncld::SgEnabled
        } else {
            SgIncld::SgDisabled
        }
    }

    /// Whether the bit is clear: direct register mode only.
    pub fn is_sg_disabled(&self) -> (yes: bool)
        ensures
            yes == !self@,
    {
        !self.bit()
    }

    /// Whether the bit is set: scatter-gather mode is available.
    pub fn is_sg_enabled(&self) -> (yes: bool)
        ensures
            yes == self@,
    {
        self.bit()
    }
}

/// A pending write of the `sg_incld` bit.
pub type SgIncldW<REG> = BitWriter<REG, SgIncld>;

impl<REG> SgIncldW<REG> {
    /// Clears the bit: direct register mode only.
    pub fn sg_disabled(self) -> (w: crate::pac::generic::W<REG>)
        ensures
            w@ == with_bit(self.before(), self.offset(), false),
    {
        self.bit(false)
    }

    /// Sets the bit: scatter-gather mode is available.
    pub fn sg_enabled(self) -> (w: crate::pac::generic::W<REG>)
        ensures
            w@ == with_bit(self.before(), self.offset(), true),
    {
        self.bit(true)
    }
}

/// Internal data-mover failure, such as a descriptor of length zero.
#[derive(Clone, Copy, Debug, PartialEq, Eq)]
pub enum DmaIntErr {
    /// Bit clear: no failure was seen.
    NoErr,
    /// Bit set: the failure was seen.
    Detected,
}

/// The `dma_int_err` bit as read.
pub type DmaIntErrR = BitReader<DmaIntErr>;

impl DmaIntErrR {
    /// The bit as a named value.
    pub fn variant(&self) -> (value: DmaIntErr)
        ensures
            value == (if self@ {
                DmaIntErr::Detected
            } else {
                DmaIntErr::NoErr
            }),
    {
        if self.bit() {
            DmaIntErr::Detected
        } else {
            DmaIntErr::NoErr
        }
    }

    /// Whether the bit is clear: no failure was seen.
    pub fn is_no_err(&self) -> (yes: bool)
        ensures
            yes == !self@,
    {
        !self.bit()
    }

    /// Whether the bit is set: the failure was seen.
    pub fn is_detected(&self) -> (yes: bool)
        ensures
            yes == self@,
    {
        self.bit()
    }
}

/// A pending write of the `dma_int_err` bit.
pub type DmaIntErrW<REG> = BitWriter<REG, DmaIntErr>;

impl<REG> DmaIntErrW<REG> {
    /// Clears the bit: no failure was seen.
    pub fn no_err(self) -> (w: crate::pac::generic::W<REG>)
        ensures
            w@ == with_bit(self.before(), self.offset(), false),
    {
        self.bit(false)
    }

    /// Sets the bit: the failure was seen.
    pub fn detected(self) -> (w: crate::pac::generic::W<REG>)
        ensures
            w@ == with_bit(self.before(), self.offset(), true),
    {
        self.bit(true)
    }
}

/// Slave-response failure on a data transfer.
#[derive(Clone, Copy, Debug, PartialEq, Eq)]
pub enum DmaSlvErr {
    /// Bit clear: no failure was seen.
    NoErr,
    /// Bit set: the failure was seen.
    Detected,
}

/// The `dma_slv_err` bit as read.
pub type DmaSlvErrR = BitReader<DmaSlvErr>;

impl DmaSlvErrR {
    /// The bit as a named value.
    pub fn variant(&self) -> (value: DmaSlvErr)
        ensures
            value == (if self@ {
                DmaSlvErr::Detected
            } else {
                DmaSlvErr::NoErr
            }),
    {
        if self.bit() {
            DmaSlvErr::Detected
        } else {
            DmaSlvErr::NoErr
        }
    }

    /// Whether the bit is clear: no failure was seen.
    pub fn is_no_err(&self) -> (yes: bool)
        ensures
            yes == !self@,
    {
        !self.bit()
    }

    /// Whether the bit is set: the failure was seen.
    pub fn is_detected(&self) -> (yes: bool)
        ensures
            yes == self@,
    {
        self.bit()
    }
}

/// A pending write of the `dma_slv_err` bit.
pub type DmaSlvErrW<REG> = BitWriter<REG, DmaSlvErr>;

impl<REG> DmaSlvErrW<REG> {
    /// Clears the bit: no failure was seen.
    pub fn no_err(self) -> (w: crate::pac::generic::W<REG>)
        ensures
            w@ == with_bit(self.before(), self.offset(), false),
    {
        self.bit(false)
    }

    /// Sets the bit: the failure was seen.
    pub fn detected(self) -> (w: crate::pac::generic::W<REG>)
        ensures
            w@ == with_bit(self.before(), self.offset(), true),
    {
        self.bit(true)
    }
}

/// Address-decode failure on a data transfer.
#[derive(Clone, Copy, Debug, PartialEq, Eq)]
pub enum DmaDecErr {
    /// Bit clear: no failure was seen.
    NoErr,
    /// Bit set: the failure was seen.
    Detected,
}

/// The `dma_dec_err` bit as read.
pub type DmaDecErrR = BitReader<DmaDecErr>;

impl DmaDecErrR {
    /// The bit as a named value.
    pub fn variant(&self) -> (value: DmaDecErr)
        ensures
            value == (if self@ {
                DmaDecErr::Detected
            } else {
                DmaDecErr::NoErr
            }),
    {
        if self.bit() {
            DmaDecErr::Detected
        } else {
            DmaDecErr::NoErr
        }
    }

    /// Whether the bit is clear: no failure was seen.
    pub fn is_no_err(&self) -> (yes: bool)
        ensures
            yes == !self@,
    {
        !self.bit()
    }

    /// Whether the bit is set: the failure was seen.
    pub fn is_detected(&self) -> (yes: bool)
        ensures
            yes == self@,
    {
        self.bit()
    }
}

/// A pending write of the `dma_dec_err` bit.
pub type DmaDecErrW<REG> = BitWriter<REG, DmaDecErr>;

impl<REG> DmaDecErrW<REG> {
    /// Clears the bit: no failure was seen.
    pub fn no_err(self) -> (w: crate::pac::generic::W<REG>)
        ensures
            w@ == with_bit(self.before(), self.offset(), false),
    {
        self.bit(false)
    }

    /// Sets the bit: the failure was seen.
    pub fn detected(self) -> (w: crate::pac::generic::W<REG>)
        ensures
            w@ == with_bit(self.before(), self.offset(), true),
    {
        self.bit(true)
    }
}

/// Internal scatter-gather failure: a fetched descriptor was already complete.
#[derive(Clone, Copy, Debug, PartialEq, Eq)]
pub enum SgIntErr {
    /// Bit clear: no failure was seen.
    NoErr,
    /// Bit set: the failure was seen.
    Detected,
}

/// The `sg_int_err` bit as read.
pub type SgIntErrR = BitReader<SgIntErr>;

impl SgIntErrR {
    /// The bit as a named value.
    pub fn variant(&self) -> (value: SgIntErr)
        ensures
            value == (if self@ {
                SgIntErr::Detected
            } else {
                SgIntErr::NoErr
            }),
    {
        if self.bit() {
            SgIntErr::Detected
        } else {
            SgIntErr::NoErr
        }
    }

    /// Whether the bit is clear: no failure was seen.
    pub fn is_no_err(&self) -> (yes: bool)
        ensures
            yes == !self@,
    {
        !self.bit()
    }

    /// Whether the bit is set: the failure was seen.
    pub fn is_detected(&self) -> (yes: bool)
        ensures
            yes == self@,
    {
        self.bit()
    }
}

/// A pending write of the `sg_int_err` bit.
pub type SgIntErrW<REG> = BitWriter<REG, SgIntErr>;

impl<REG> SgIntErrW<REG> {
    /// Clears the bit: no failure was seen.
    pub fn no_err(self) -> (w: crate::pac::generic::W<REG>)
        ensures
            w@ == with_bit(self.before(), self.offset(), false),
    {
        self.bit(false)
    }

    /// Sets the bit: the failure was seen.
    pub fn detected(self) -> (w: crate::pac::generic::W<REG>)
        ensures
            w@ == with_bit(self.before(), self.offset(), true),
    {
        self.bit(true)
    }
}

/// Slave-response failure on a descriptor access.
#[derive(Clone, Copy, Debug, PartialEq, Eq)]
pub enum SgSlvErr {
    /// Bit clear: no failure was seen.
    NoErr,
    /// Bit set: the failure was seen.
    Detected,
}

/// The `sg_slv_err` bit as read.
pub type SgSlvErrR = BitReader<SgSlvErr>;

impl SgSlvErrR {
    /// The bit as a named value.
    pub fn variant(&self) -> (value: SgSlvErr)
        ensures
            value == (if self@ {
                SgSlvErr::Detected
            } else {
                SgSlvErr::NoErr
            }),
    {
        if self.bit() {
            SgSlvErr::Detected
        } else {
            SgSlvErr::NoErr
        }
    }

    /// Whether the bit is clear: no failure was seen.
    pub fn is_no_err(&self) -> (yes: bool)
        ensures
            yes == !self@,
    {
        !self.bit()
    }

    /// Whether the bit is set: the failure was seen.
    pub fn is_detected(&self) -> (yes: bool)
        ensures
            yes == self@,
    {
        self.bit()
    }
}

/// A pending write of the `sg_slv_err` bit.
pub type SgSlvErrW<REG> = BitWriter<REG, SgSlvErr>;

impl<REG> SgSlvErrW<REG> {
    /// Clears the bit: no failure was seen.
    pub fn no_err(self) -> (w: crate::pac::generic::W<REG>)
        ensures
            w@ == with_bit(self.before(), self.offset(), false),
    {
        self.bit(false)
    }

    /// Sets the bit: the failure was seen.
    pub fn detected(self) -> (w: crate::pac::generic::W<REG>)
        ensures
            w@ == with_bit(self.before(), self.offset(), true),
    {
        self.bit(true)
    }
}

/// Address-decode failure on a descriptor access.
#[derive(Clone, Copy, Debug, PartialEq, Eq)]
pub enum SgDecErr {
    /// Bit clear: no failure was seen.
    NoErr,
    /// Bit set: the failure was seen.
    Detected,
}

/// The `sg_dec_err` bit as read.
pub type SgDecErrR = BitReader<SgDecErr>;

impl SgDecErrR {
    /// The bit as a named value.
    pub fn variant(&self) -> (value: SgDecErr)
        ensures
            value == (if self@ {
                SgDecErr::Detected
            } else {
                SgDecErr::NoErr
            }),
    {
        if self.bit() {
            SgDecErr::Detected
        } else {
            SgDecErr::NoErr
        }
    }

    /// Whether the bit is clear: no failure was seen.
    pub fn is_no_err(&self) -> (yes: bool)
        ensures
            yes == !self@,
    {
        !self.bit()
    }

    /// Whether the bit is set: the failure was seen.
    pub fn is_detected(&self) -> (yes: bool)
        ensures
            yes == self@,
    {
        self.bit()
    }
}

/// A pending write of the `sg_dec_err` bit.
pub type SgDecErrW<REG> = BitWriter<REG, SgDecErr>;

impl<REG> SgDecErrW<REG> {
    /// Clears the bit: no failure was seen.
    pub fn no_err(self) -> (w: crate::pac::generic::W<REG>)
        ensures
            w@ == with_bit(self.before(), self.offset(), false),
    {
        self.bit(false)
    }

    /// Sets the bit: the failure was seen.
    pub fn detected(self) -> (w: crate::pac::generic::W<REG>)
        ensures
            w@ == with_bit(self.before(), self.offset(), true),
    {
        self.bit(true)
    }
}

/// Completion interrupt.
#[derive(Clone, Copy, Debug, PartialEq, Eq)]
pub enum IocIrq {
    /// Bit clear: the event is not pending.
    NoIntr,
    /// Bit set: the event is pending; writing 1 acknowledges it.
    Detected,
}

/// The `ioc_irq` bit as read.
pub type IocIrqR = BitReader<IocIrq>;

impl IocIrqR {
    /// The bit as a named value.
    pub fn variant(&self) -> (value: IocIrq)
        ensures
            value == (if self@ {
                IocIrq::Detected
            } else {
                IocIrq::NoIntr
            }),
    {
        if self.bit() {
            IocIrq::Detected
        } else {
            IocIrq::NoIntr
        }
    }

    /// Whether the bit is clear: the event is not pending.
    pub fn is_no_intr(&self) -> (yes: bool)
        ensures
            yes == !self@,
    {
        !self.bit()
    }

    /// Whether the bit is set: the event is pending; writing 1 acknowledges it.
    pub fn is_detected(&self) -> (yes: bool)
        ensures
            yes == self@,
    {
        self.bit()
    }
}

/// A pending write of the `ioc_irq` bit.
pub type IocIrqW<REG> = BitWriter<REG, IocIrq>;

impl<REG> IocIrqW<REG> {
    /// Clears the bit: the event is not pending.
    pub fn no_intr(self) -> (w: crate::pac::generic::W<REG>)
        ensures
            w@ == with_bit(self.before(), self.offset(), false),
    {
        self.bit(false)
    }

    /// Sets the bit: the event is pending; writing 1 acknowledges it.
    pub fn detected(self) -> (w: crate::pac::generic::W<REG>)
        ensures
            w@ == with_bit(self.before(), self.offset(), true),
    {
        self.bit(true)
    }
}

/// Delay-timer interrupt.
#[derive(Clone, Copy, Debug, PartialEq, Eq)]
pub enum DlyIrq {
    /// Bit clear: the event is not pending.
    NoIntr,
    /// Bit set: the event is pending; writing 1 acknowledges it.
    Detected,
}

/// The `dly_irq` bit as read.
pub type DlyIrqR = BitReader<DlyIrq>;

impl DlyIrqR {
    /// The bit as a named value.
    pub fn variant(&self) -> (value: DlyIrq)
        ensures
            value == (if self@ {
                DlyIrq::Detected
            } else {
                DlyIrq::NoIntr
            }),
    {
        if self.bit() {
            DlyIrq::Detected
        } else {
            DlyIrq::NoIntr
        }
    }

    /// Whether the bit is clear: the event is not pending.
    pub fn is_no_intr(&self) -> (yes: bool)
        ensures
            yes == !self@,
    {
        !self.bit()
    }

    /// Whether the bit is set: the event is pending; writing 1 acknowledges it.
    pub fn is_detected(&self) -> (yes: bool)
        ensures
            yes == self@,
    {
        self.bit()
    }
}

/// A pending write of the `dly_irq` bit.
pub type DlyIrqW<REG> = BitWriter<REG, DlyIrq>;

impl<REG> DlyIrqW<REG> {
    /// Clears the bit: the event is not pending.
    pub fn no_intr(self) -> (w: crate::pac::generic::W<REG>)
        ensures
            w@ == with_bit(self.before(), self.offset(), false),
    {
        self.bit(false)
    }

    /// Sets the bit: the event is pending; writing 1 acknowledges it.
    pub fn detected(self) -> (w: crate::pac::generic::W<REG>)
        ensures
            w@ == with_bit(self.before(), self.offset(), true),
    {
        self.bit(true)
    }
}

/// Error interrupt.
#[derive(Clone, Copy, Debug, PartialEq, Eq)]
pub enum ErrIrq {
    /// Bit clear: the event is not pending.
    NoIntr,
    /// Bit set: the event is pending; writing 1 acknowledges it.
    Detected,
}

/// The `err_irq` bit as read.
pub type ErrIrqR = BitReader<ErrIrq>;

impl ErrIrqR {
    /// The bit as a named value.
    pub fn variant(&self) -> (value: ErrIrq)
        ensures
            value == (if self@ {
                ErrIrq::Detected
            } else {
                ErrIrq::NoIntr
            }),
    {
        if self.bit() {
            ErrIrq::Detected
        } else {
            ErrIrq::NoIntr
        }
    }

    /// Whether the bit is clear: the event is not pending.
    pub fn is_no_intr(&self) -> (yes: bool)
        ensures
            yes == !self@,
    {
        !self.bit()
    }

    /// Whether the bit is set: the event is pending; writing 1 acknowledges it.
    pub fn is_detected(&self) -> (yes: bool)
        ensures
            yes == self@,
    {
        self.bit()
    }
}

/// A pending write of the `err_irq` bit.
pub type ErrIrqW<REG> = BitWriter<REG, ErrIrq>;

impl<REG> ErrIrqW<REG> {
    /// Clears the bit: the event is not pending.
    pub fn no_intr(self) -> (w: crate::pac::generic::W<REG>)
        ensures
            w@ == with_bit(self.before(), self.offset(), false),
    {
        self.bit(false)
    }

    /// Sets the bit: the event is pending; writing 1 acknowledges it.
    pub fn detected(self) -> (w: crate::pac::generic::W<REG>)
        ensures
            w@ == with_bit(self.before(), self.offset(), true),
    {
        self.bit(true)
    }
}

/// The `irq_threshold_sts` field as read.
pub type IrqThresholdStsR = FieldReader<u8>;

/// A pending write of the `irq_threshold_sts` field.
pub type IrqThresholdStsW<REG> = FieldWriter<REG, 8, u8>;

/// The `irq_delay_sts` field as read.
pub type IrqDelayStsR = FieldReader<u8>;

/// A pending write of the `irq_delay_sts` field.
pub type IrqDelayStsW<REG> = FieldWriter<REG, 8, u8>;

impl R {
    /// Bit 0: run state of the channel as the device reports it.
    pub fn halted(&self) -> (field: HaltedR)
        ensures
            field@ == bit_of(self@, 0),
    {
        HaltedR::new(raw_bit(self.bits(), 0))
    }

    /// Bit 1: whether the channel has reached the tail descriptor and paused.
    pub fn idle(&self) -> (field: IdleR)
        ensures
            field@ == bit_of(self@, 1),
    {
        IdleR::new(raw_bit(self.bits(), 1))
    }

    /// Bit 3: whether the device was built with the scatter-gather engine.
    pub fn sg_incld(&self) -> (field: SgIncldR)
        ensures
            field@ == bit_of(self@, 3),
    {
        SgIncldR::new(raw_bit(self.bits(), 3))
    }

    /// Bit 4: internal data-mover failure, such as a descriptor of length zero.
    pub fn dma_int_err(&self) -> (field: DmaIntErrR)
        ensures
            field@ == bit_of(self@, 4),
    {
        DmaIntErrR::new(raw_bit(self.bits(), 4))
    }

    /// Bit 5: slave-response failure on a data transfer.
    pub fn dma_slv_err(&self) -> (field: DmaSlvErrR)
        ensures
            field@ == bit_of(self@, 5),
    {
        DmaSlvErrR::new(raw_bit(self.bits(), 5))
    }

    /// Bit 6: address-decode failure on a data transfer.
    pub fn dma_dec_err(&self) -> (field: DmaDecErrR)
        ensures
            field@ == bit_of(self@, 6),
    {
        DmaDecErrR::new(raw_bit(self.bits(), 6))
    }

    /// Bit 8: internal scatter-gather failure: a fetched descriptor was already
    /// complete.
    pub fn sg_int_err(&self) -> (field: SgIntErrR)
        ensures
            field@ == bit_of(self@, 8),
    {
        SgIntErrR::new(raw_bit(self.bits(), 8))
    }

    /// Bit 9: slave-response failure on a descriptor access.
    pub fn sg_slv_err(&self) -> (field: SgSlvErrR)
        ensures
            field@ == bit_of(self@, 9),
    {
        SgSlvErrR::new(raw_bit(self.bits(), 9))
    }

    /// Bit 10: address-decode failure on a descriptor access.
    pub fn sg_dec_err(&self) -> (field: SgDecErrR)
        ensures
            field@ == bit_of(self@, 10),
    {
        SgDecErrR::new(raw_bit(self.bits(), 10))
    }

    /// Bit 12: completion interrupt.
    pub fn ioc_irq(&self) -> (field: IocIrqR)
        ensures
            field@ == bit_of(self@, 12),
    {
        IocIrqR::new(raw_bit(self.bits(), 12))
    }

    /// Bit 13: delay-timer interrupt.
    pub fn dly_irq(&self) -> (field: DlyIrqR)
        ensures
            field@ == bit_of(self@, 13),
    {
        DlyIrqR::new(raw_bit(self.bits(), 13))
    }

    /// Bit 14: error interrupt.
    pub fn err_irq(&self) -> (field: ErrIrqR)
        ensures
            field@ == bit_of(self@, 14),
    {
        ErrIrqR::new(raw_bit(self.bits(), 14))
    }

    /// Bits 16 to 23: completions still to come before the completion interrupt
    /// fires.
    pub fn irq_threshold_sts(&self) -> (field: IrqThresholdStsR)
        ensures
            field@ == field_of(self@, 16, 8),
    {
        let value = raw_field(self.bits(), 16, 8);
        proof {
            lemma_mask_values();
        }
        IrqThresholdStsR::new(value as u8)
    }

    /// Bits 24 to 31: current value of the interrupt delay timer.
    pub fn irq_delay_sts(&self) -> (field: IrqDelayStsR)
        ensures
            field@ == field_of(self@, 24, 8),
    {
        let value = raw_field(self.bits(), 24, 8);
        proof {
            lemma_mask_values();
        }
        IrqDelayStsR::new(value as u8)
    }
}

impl W {
    /// Bit 0: run state of the channel as the device reports it.
    pub fn halted(self) -> (field: HaltedW<DmasrSpec>)
        ensures
            field.before() == self@,
            field.offset() == 0,
    {
        HaltedW::new(self, 0)
    }

    /// Bit 1: whether the channel has reached the tail descriptor and paused.
    pub fn idle(self) -> (field: IdleW<DmasrSpec>)
        ensures
            field.before() == self@,
            field.offset() == 1,
    {
        IdleW::new(self, 1)
    }

    /// Bit 3: whether the device was built with the scatter-gather engine.
    pub fn sg_incld(self) -> (field: SgIncldW<DmasrSpec>)
        ensures
            field.before() == self@,
            field.offset() == 3,
    {
        SgIncldW::new(self, 3)
    }

    /// Bit 4: internal data-mover failure, such as a descriptor of length zero.
    pub fn dma_int_err(self) -> (field: DmaIntErrW<DmasrSpec>)
        ensures
            field.before() == self@,
            field.offset() == 4,
    {
        DmaIntErrW::new(self, 4)
    }

    /// Bit 5: slave-response failure on a data transfer.
    pub fn dma_slv_err(self) -> (field: DmaSlvErrW<DmasrSpec>)
        ensures
            field.before() == self@,
            field.offset() == 5,
    {
        DmaSlvErrW::new(self, 5)
    }

    /// Bit 6: address-decode failure on a data transfer.
    pub fn dma_dec_err(self) -> (field: DmaDecErrW<DmasrSpec>)
        ensures
            field.before() == self@,
            field.offset() == 6,
    {
        DmaDecErrW::new(self, 6)
    }

    /// Bit 8: internal scatter-gather failure: a fetched descriptor was already
    /// complete.
    pub fn sg_int_err(self) -> (field: SgIntErrW<DmasrSpec>)
        ensures
            field.before() == self@,
            field.offset() == 8,
    {
        SgIntErrW::new(self, 8)
    }

    /// Bit 9: slave-response failure on a descriptor access.
    pub fn sg_slv_err(self) -> (field: SgSlvErrW<DmasrSpec>)
        ensures
            field.before() == self@,
            field.offset() == 9,
    {
        SgSlvErrW::new(self, 9)
    }

    /// Bit 10: address-decode failure on a descriptor access.
    pub fn sg_dec_err(self) -> (field: SgDecErrW<DmasrSpec>)
        ensures
            field.before() == self@,
            field.offset() == 10,
    {
        SgDecErrW::new(self, 10)
    }

    /// Bit 12: completion interrupt.
    pub fn ioc_irq(self) -> (field: IocIrqW<DmasrSpec>)
        ensures
            field.before() == self@,
            field.offset() == 12,
    {
        IocIrqW::new(self, 12)
    }

    /// Bit 13: delay-timer interrupt.
    pub fn dly_irq(self) -> (field: DlyIrqW<DmasrSpec>)
        ensures
            field.before() == self@,
            field.offset() == 13,
    {
        DlyIrqW::new(self, 13)
    }

    /// Bit 14: error interrupt.
    pub fn err_irq(self) -> (field: ErrIrqW<DmasrSpec>)
        ensures
            field.before() == self@,
            field.offset() == 14,
    {
        ErrIrqW::new(self, 14)
    }

    /// Bits 16 to 23: completions still to come before the completion interrupt
    /// fires.
    pub fn irq_threshold_sts(self) -> (field: IrqThresholdStsW<DmasrSpec>)
        ensures
            field.before() == self@,
            field.offset() == 16,
    {
        IrqThresholdStsW::new(self, 16)
    }

    /// Bits 24 to 31: current value of the interrupt delay timer.
    pub fn irq_delay_sts(self) -> (field: IrqDelayStsW<DmasrSpec>)
        ensures
            field.before() == self@,
            field.offset() == 24,
    {
        IrqDelayStsW::new(self, 24)
    }
}

} // verus!
