//! Control register of one channel.
use crate::pac::generic::{
    BitReader, BitWriter, FieldReader, FieldWriter, Readable, RegisterSpec, Resettable, Writable,
    bit_of, field_of, lemma_mask_values, raw_bit, raw_field, with_bit,
};
use vstd::prelude::*;

verus! {

/// Names this register: control register of one channel.
pub struct DmacrSpec;

impl RegisterSpec for DmacrSpec {

}

impl Readable for DmacrSpec {

}

impl Writable for DmacrSpec {

}

impl Resettable for DmacrSpec {
    open spec fn spec_reset_value() -> u32 {
        0
    }

    fn reset_value() -> u32 {
        0
    }
}

/// What a read of this register returns.
pub type R = crate::pac::generic::R<DmacrSpec>;

/// What a write to this register takes.
pub type W = crate::pac::generic::W<DmacrSpec>;

/// Whether the channel is asked to run.
#[derive(Clone, Copy, Debug, PartialEq, Eq)]
pub enum RunStop {
    /// Bit clear: the channel is asked to stop.
    Stop,
    /// Bit set: the channel is asked to run.
    Run,
}

/// The `run_stop` bit as read.
pub type RunStopR = BitReader<RunStop>;

impl RunStopR {
    /// The bit as a named value.
    pub fn variant(&self) -> (value: RunStop)
        ensures
            value == (if self@ {
                RunStop::Run
            } else {
                RunStop::Stop
            }),
    {
        if self.bit() {
            RunStop::Run
        } else {
            RunStop::Stop
        }
    }

    /// Whether the bit is clear: the channel is asked to stop.
    pub fn is_stop(&self) -> (yes: bool)
        ensures
            yes == !self@,
    {
        !self.bit()
    }

    /// Whether the bit is set: the channel is asked to run.
    pub fn is_run(&self) -> (yes: bool)
        ensures
            yes == self@,
    {
        self.bit()
    }
}

/// A pending write of the `run_stop` bit.
pub type RunStopW<REG> = BitWriter<REG, RunStop>;

impl<REG> RunStopW<REG> {
    /// Clears the bit: the channel is asked to stop.
    pub fn stop(self) -> (w: crate::pac::generic::W<REG>)
        ensures
            w@ == with_bit(self.before(), self.offset(), false),
    {
        self.bit(false)
    }

    /// Sets the bit: the channel is asked to run.
    pub fn run(self) -> (w: crate::pac::generic::W<REG>)
        ensures
            w@ == with_bit(self.before(), self.offset(), true),
    {
        self.bit(true)
    }
}

/// Soft reset; the device clears the bit when the reset is over.
#[derive(Clone, Copy, Debug, PartialEq, Eq)]
pub enum Reset {
    /// Bit clear: no reset is in progress.
    Normal,
    /// Bit set: a reset is requested or in progress.
    Reset,
}

/// The `reset` bit as read.
pub type ResetR = BitReader<Reset>;

impl ResetR {
    /// The bit as a named value.
    pub fn variant(&self) -> (value: Reset)
        ensures
            value == (if self@ {
                Reset::Reset
            } else {
                Reset::Normal
            }),
    {
        if self.bit() {
            Reset::Reset
        } else {
            Reset::Normal
        }
    }

    /// Whether the bit is clear: no reset is in progress.
    pub fn is_normal(&self) -> (yes: bool)
        ensures
            yes == !self@,
    {
        !self.bit()
    }

    /// Whether the bit is set: a reset is requested or in progress.
    pub fn is_reset(&self) -> (yes: bool)
        ensures
            yes == self@,
    {
        self.bit()
    }
}

/// A pending write of the `reset` bit.
pub type ResetW<REG> = BitWriter<REG, Reset>;

impl<REG> ResetW<REG> {
    /// Clears the bit: no reset is in progress.
    pub fn normal(self) -> (w: crate::pac::generic::W<REG>)
        ensures
            w@ == with_bit(self.before(), self.offset(), false),
    {
        self.bit(false)
    }

    /// Sets the bit: a reset is requested or in progress.
    pub fn reset(self) -> (w: crate::pac::generic::W<REG>)
        ensures
            w@ == with_bit(self.before(), self.offset(), true),
    {
        self.bit(true)
    }
}

/// Keyhole access: every beat of a burst goes to one address.
#[derive(Clone, Copy, Debug, PartialEq, Eq)]
pub enum Keyhole {
    /// Bit clear: addresses advance through a burst.
    Disable,
    /// Bit set: the address stays fixed.
    Enable,
}

/// The `keyhole` bit as read.
pub type KeyholeR = BitReader<Keyhole>;

impl KeyholeR {
    /// The bit as a named value.
    pub fn variant(&self) -> (value: Keyhole)
        ensures
            value == (if self@ {
                Keyhole::Enable
            } else {
                Keyhole::Disable
            }),
    {
        if self.bit() {
            Keyhole::Enable
        } else {
            Keyhole::Disable
        }
    }

    /// Whether the bit is clear: addresses advance through a burst.
    pub fn is_disable(&self) -> (yes: bool)
        ensures
            yes == !self@,
    {
        !self.bit()
    }

    /// Whether the bit is set: the address stays fixed.
    pub fn is_enable(&self) -> (yes: bool)
        ensures
            yes == self@,
    {
        self.bit()
    }
}

/// A pending write of the `keyhole` bit.
pub type KeyholeW<REG> = BitWriter<REG, Keyhole>;

impl<REG> KeyholeW<REG> {
    /// Clears the bit: addresses advance through a burst.
    pub fn disable(self) -> (w: crate::pac::generic::W<REG>)
        ensures
            w@ == with_bit(self.before(), self.offset(), false),
    {
        self.bit(false)
    }

    /// Sets the bit: the address stays fixed.
    pub fn enable(self) -> (w: crate::pac::generic::W<REG>)
        ensures
            w@ == with_bit(self.before(), self.offset(), true),
    {
        self.bit(true)
    }
}

/// Cyclic mode: the device keeps walking the ring past the tail.
#[derive(Clone, Copy, Debug, PartialEq, Eq)]
pub enum CyclicEnable {
    /// Bit clear: the device pauses at the tail.
    Disable,
    /// Bit set: the device never pauses.
    Enable,
}

/// The `cyclic_enable` bit as read.
pub type CyclicEnableR = BitReader<CyclicEnable>;

impl CyclicEnableR {
    /// The bit as a named value.
    pub fn variant(&self) -> (value: CyclicEnable)
        ensures
            value == (if self@ {
                CyclicEnable::Enable
            } else {
                CyclicEnable::Disable
            }),
    {
        if self.bit() {
            CyclicEnable::Enable
        } else {
            CyclicEnable::Disable
        }
    }

    /// Whether the bit is clear: the device pauses at the tail.
    pub fn is_disable(&self) -> (yes: bool)
        ensures
            yes == !self@,
    {
        !self.bit()
    }

    /// Whether the bit is set: the device never pauses.
    pub fn is_enable(&self) -> (yes: bool)
        ensures
            yes == self@,
    {
        self.bit()
    }
}

/// A pending write of the `cyclic_enable` bit.
pub type CyclicEnableW<REG> = BitWriter<REG, CyclicEnable>;

impl<REG> CyclicEnableW<REG> {
    /// Clears the bit: the device pauses at the tail.
    pub fn disable(self) -> (w: crate::pac::generic::W<REG>)
        ensures
            w@ == with_bit(self.before(), self.offset(), false),
    {
        self.bit(false)
    }

    /// Sets the bit: the device never pauses.
    pub fn enable(self) -> (w: crate::pac::generic::W<REG>)
        ensures
            w@ == with_bit(self.before(), self.offset(), true),
    {
        self.bit(true)
    }
}

/// Enable bit of the completion interrupt.
#[derive(Clone, Copy, Debug, PartialEq, Eq)]
pub enum IocIrqEn {
    /// Bit clear: the interrupt is masked.
    Disable,
    /// Bit set: the interrupt is delivered.
    Enable,
}

/// The `ioc_irq_en` bit as read.
pub type IocIrqEnR = BitReader<IocIrqEn>;

impl IocIrqEnR {
    /// The bit as a named value.
    pub fn variant(&self) -> (value: IocIrqEn)
        ensures
            value == (if self@ {
                IocIrqEn::Enable
            } else {
                IocIrqEn::Disable
            }),
    {
        if self.bit() {
            IocIrqEn::Enable
        } else {
            IocIrqEn::Disable
        }
    }

    /// Whether the bit is clear: the interrupt is masked.
    pub fn is_disable(&self) -> (yes: bool)
        ensures
            yes == !self@,
    {
        !self.bit()
    }

    /// Whether the bit is set: the interrupt is delivered.
    pub fn is_enable(&self) -> (yes: bool)
        ensures
            yes == self@,
    {
        self.bit()
    }
}

/// A pending write of the `ioc_irq_en` bit.
pub type IocIrqEnW<REG> = BitWriter<REG, IocIrqEn>;

impl<REG> IocIrqEnW<REG> {
    /// Clears the bit: the interrupt is masked.
    pub fn disable(self) -> (w: crate::pac::generic::W<REG>)
        ensures
            w@ == with_bit(self.before(), self.offset(), false),
    {
        self.bit(false)
    }

    /// Sets the bit: the interrupt is delivered.
    pub fn enable(self) -> (w: crate::pac::generic::W<REG>)
        ensures
            w@ == with_bit(self.before(), self.offset(), true),
    {
        self.bit(true)
    }
}

/// Enable bit of the delay-timer interrupt.
#[derive(Clone, Copy, Debug, PartialEq, Eq)]
pub enum DlyIrqEn {
    /// Bit clear: the interrupt is masked.
    Disable,
    /// Bit set: the interrupt is delivered.
    Enable,
}

/// The `dly_irq_en` bit as read.
pub type DlyIrqEnR = BitReader<DlyIrqEn>;

impl DlyIrqEnR {
    /// The bit as a named value.
    pub fn variant(&self) -> (value: DlyIrqEn)
        ensures
            value == (if self@ {
                DlyIrqEn::Enable
            } else {
                DlyIrqEn::Disable
            }),
    {
        if self.bit() {
            DlyIrqEn::Enable
        } else {
            DlyIrqEn::Disable
        }
    }

    /// Whether the bit is clear: the interrupt is masked.
    pub fn is_disable(&self) -> (yes: bool)
        ensures
            yes == !self@,
    {
        !self.bit()
    }

    /// Whether the bit is set: the interrupt is delivered.
    pub fn is_enable(&self) -> (yes: bool)
        ensures
            yes == self@,
    {
        self.bit()
    }
}

/// A pending write of the `dly_irq_en` bit.
pub type DlyIrqEnW<REG> = BitWriter<REG, DlyIrqEn>;

impl<REG> DlyIrqEnW<REG> {
    /// Clears the bit: the interrupt is masked.
    pub fn disable(self) -> (w: crate::pac::generic::W<REG>)
        ensures
            w@ == with_bit(self.before(), self.offset(), false),
    {
        self.bit(false)
    }

    /// Sets the bit: the interrupt is delivered.
    pub fn enable(self) -> (w: crate::pac::generic::W<REG>)
        ensures
            w@ == with_bit(self.before(), self.offset(), true),
    {
        self.bit(true)
    }
}

/// Enable bit of the error interrupt.
#[derive(Clone, Copy, Debug, PartialEq, Eq)]
pub enum ErrIrqEn {
    /// Bit clear: the interrupt is masked.
    Disable,
    /// Bit set: the interrupt is delivered.
    Enable,
}

/// The `err_irq_en` bit as read.
pub type ErrIrqEnR = BitReader<ErrIrqEn>;

impl ErrIrqEnR {
    /// The bit as a named value.
    pub fn variant(&self) -> (value: ErrIrqEn)
        ensures
            value == (if self@ {
                ErrIrqEn::Enable
            } else {
                ErrIrqEn::Disable
            }),
    {
        if self.bit() {
            ErrIrqEn::Enable
        } else {
            ErrIrqEn::Disable
        }
    }

    /// Whether the bit is clear: the interrupt is masked.
    pub fn is_disable(&self) -> (yes: bool)
        ensures
            yes == !self@,
    {
        !self.bit()
    }

    /// Whether the bit is set: the interrupt is delivered.
    pub fn is_enable(&self) -> (yes: bool)
        ensures
            yes == self@,
    {
        self.bit()
    }
}

/// A pending write of the `err_irq_en` bit.
pub type ErrIrqEnW<REG> = BitWriter<REG, ErrIrqEn>;

impl<REG> ErrIrqEnW<REG> {
    /// Clears the bit: the interrupt is masked.
    pub fn disable(self) -> (w: crate::pac::generic::W<REG>)
        ensures
            w@ == with_bit(self.before(), self.offset(), false),
    {
        self.bit(false)
    }

    /// Sets the bit: the interrupt is delivered.
    pub fn enable(self) -> (w: crate::pac::generic::W<REG>)
        ensures
            w@ == with_bit(self.before(), self.offset(), true),
    {
        self.bit(true)
    }
}

/// The `irq_threshold` field as read.
pub type IrqThresholdR = FieldReader<u8>;

/// A pending write of the `irq_threshold` field.
pub type IrqThresholdW<REG> = FieldWriter<REG, 8, u8>;

/// The `irq_delay` field as read.
pub type IrqDelayR = FieldReader<u8>;

/// A pending write of the `irq_delay` field.
pub type IrqDelayW<REG> = FieldWriter<REG, 8, u8>;

impl R {
    /// Bit 0: whether the channel is asked to run.
    pub fn run_stop(&self) -> (field: RunStopR)
        ensures
            field@ == bit_of(self@, 0),
    {
        RunStopR::new(raw_bit(self.bits(), 0))
    }

    /// Bit 2: soft reset; the device clears the bit when the reset is over.
    pub fn reset(&self) -> (field: ResetR)
        ensures
            field@ == bit_of(self@, 2),
    {
        ResetR::new(raw_bit(self.bits(), 2))
    }

    /// Bit 3: keyhole access: every beat of a burst goes to one address.
    pub fn keyhole(&self) -> (field: KeyholeR)
        ensures
            field@ == bit_of(self@, 3),
    {
        KeyholeR::new(raw_bit(self.bits(), 3))
    }

    /// Bit 4: cyclic mode: the device keeps walking the ring past the tail.
    pub fn cyclic_enable(&self) -> (field: CyclicEnableR)
        ensures
            field@ == bit_of(self@, 4),
    {
        CyclicEnableR::new(raw_bit(self.bits(), 4))
    }

    /// Bit 12: enable bit of the completion interrupt.
    pub fn ioc_irq_en(&self) -> (field: IocIrqEnR)
        ensures
            field@ == bit_of(self@, 12),
    {
        IocIrqEnR::new(raw_bit(self.bits(), 12))
    }

    /// Bit 13: enable bit of the delay-timer interrupt.
    pub fn dly_irq_en(&self) -> (field: DlyIrqEnR)
        ensures
            field@ == bit_of(self@, 13),
    {
        DlyIrqEnR::new(raw_bit(self.bits(), 13))
    }

    /// Bit 14: enable bit of the error interrupt.
    pub fn err_irq_en(&self) -> (field: ErrIrqEnR)
        ensures
            field@ == bit_of(self@, 14),
    {
        ErrIrqEnR::new(raw_bit(self.bits(), 14))
    }

    /// Bits 16 to 23: completions to collect before the completion interrupt
    /// fires.
    pub fn irq_threshold(&self) -> (field: IrqThresholdR)
        ensures
            field@ == field_of(self@, 16, 8),
    {
        let value = raw_field(self.bits(), 16, 8);
        proof {
            lemma_mask_values();
        }
        IrqThresholdR::new(value as u8)
    }

    /// Bits 24 to 31: timeout of the interrupt delay timer.
    pub fn irq_delay(&self) -> (field: IrqDelayR)
        ensures
            field@ == field_of(self@, 24, 8),
    {
        let value = raw_field(self.bits(), 24, 8);
        proof {
            lemma_mask_values();
        }
        IrqDelayR::new(value as u8)
    }
}

impl W {
    /// Bit 0: whether the channel is asked to run.
    pub fn run_stop(self) -> (field: RunStopW<DmacrSpec>)
        ensures
            field.before() == self@,
            field.offset() == 0,
    {
        RunStopW::new(self, 0)
    }

    /// Bit 2: soft reset; the device clears the bit when the reset is over.
    pub fn reset(self) -> (field: ResetW<DmacrSpec>)
        ensures
            field.before() == self@,
            field.offset() == 2,
    {
        ResetW::new(self, 2)
    }

    /// Bit 3: keyhole access: every beat of a burst goes to one address.
    pub fn keyhole(self) -> (field: KeyholeW<DmacrSpec>)
        ensures
            field.before() == self@,
            field.offset() == 3,
    {
        KeyholeW::new(self, 3)
    }

    /// Bit 4: cyclic mode: the device keeps walking the ring past the tail.
    pub fn cyclic_enable(self) -> (field: CyclicEnableW<DmacrSpec>)
        ensures
            field.before() == self@,
            field.offset() == 4,
    {
        CyclicEnableW::new(self, 4)
    }

    /// Bit 12: enable bit of the completion interrupt.
    pub fn ioc_irq_en(self) -> (field: IocIrqEnW<DmacrSpec>)
        ensures
            field.before() == self@,
            field.offset() == 12,
    {
        IocIrqEnW::new(self, 12)
    }

    /// Bit 13: enable bit of the delay-timer interrupt.
    pub fn dly_irq_en(self) -> (field: DlyIrqEnW<DmacrSpec>)
        ensures
            field.before() == self@,
            field.offset() == 13,
    {
        DlyIrqEnW::new(self, 13)
    }

    /// Bit 14: enable bit of the error interrupt.
    pub fn err_irq_en(self) -> (field: ErrIrqEnW<DmacrSpec>)
        ensures
            field.before() == self@,
            field.offset() == 14,
    {
        ErrIrqEnW::new(self, 14)
    }

    /// Bits 16 to 23: completions to collect before the completion interrupt
    /// fires.
    pub fn irq_threshold(self) -> (field: IrqThresholdW<DmacrSpec>)
        ensures
            field.before() == self@,
            field.offset() == 16,
    {
        IrqThresholdW::new(self, 16)
    }

    /// Bits 24 to 31: timeout of the interrupt delay timer.
    pub fn irq_delay(self) -> (field: IrqDelayW<DmacrSpec>)
        ensures
            field.before() == self@,
            field.offset() == 24,
    {
        IrqDelayW::new(self, 24)
    }
}

} // verus!
