//! Status word of a descriptor, written by the device alone.
use crate::pac::generic::{
    BitReader, FieldReader, Readable, RegisterSpec, Resettable, bit_of, field_of, raw_bit,
    raw_field,
};
use vstd::prelude::*;

verus! {

/// Names this register: status word of a descriptor, written by the device
/// alone.
pub struct StatusSpec;

impl RegisterSpec for StatusSpec {

}

impl Readable for StatusSpec {

}

impl Resettable for StatusSpec {
    open spec fn spec_reset_value() -> u32 {
        0
    }

    fn reset_value() -> u32 {
        0
    }
}

/// What a read of this register returns.
pub type R = crate::pac::generic::R<StatusSpec>;

/// The `tfer_bytes` field as read.
pub type TferBytesR = FieldReader<u32>;

/// Received end of frame: the buffer holds the last part of a packet.
#[derive(Clone, Copy, Debug, PartialEq, Eq)]
pub enum Rxeof {
    /// Bit clear: the packet goes on.
    False,
    /// Bit set: the packet ends here.
    True,
}

/// The `rxeof` bit as read.
pub type RxeofR = BitReader<Rxeof>;

impl RxeofR {
    /// The bit as a named value.
    pub fn variant(&self) -> (value: Rxeof)
        ensures
            value == (if self@ {
                Rxeof::True
            } else {
                Rxeof::False
            }),
    {
        if self.bit() {
            Rxeof::True
        } else {
            Rxeof::False
        }
    }

    /// Whether the bit is clear: the packet goes on.
    pub fn is_false(&self) -> (yes: bool)
        ensures
            yes == !self@,
    {
        !self.bit()
    }

    /// Whether the bit is set: the packet ends here.
    pub fn is_true(&self) -> (yes: bool)
        ensures
            yes == self@,
    {
        self.bit()
    }
}

/// Received start of frame: the buffer holds the first part of a packet.
#[derive(Clone, Copy, Debug, PartialEq, Eq)]
pub enum Rxsof {
    /// Bit clear: the packet began earlier.
    False,
    /// Bit set: the packet begins here.
    True,
}

/// The `rxsof` bit as read.
pub type RxsofR = BitReader<Rxsof>;

impl RxsofR {
    /// The bit as a named value.
    pub fn variant(&self) -> (value: Rxsof)
        ensures
            value == (if self@ {
                Rxsof::True
            } else {
                Rxsof::False
            }),
    {
        if self.bit() {
            Rxsof::True
        } else {
            Rxsof::False
        }
    }

    /// Whether the bit is clear: the packet began earlier.
    pub fn is_false(&self) -> (yes: bool)
        ensures
            yes == !self@,
    {
        !self.bit()
    }

    /// Whether the bit is set: the packet begins here.
    pub fn is_true(&self) -> (yes: bool)
        ensures
            yes == self@,
    {
        self.bit()
    }
}

/// Internal data-mover failure on this descriptor.
#[derive(Clone, Copy, Debug, PartialEq, Eq)]
pub enum DmaIntErr {
    /// Bit clear: no failure was seen.
    NoErr,
    /// Bit set: the failure was seen.
    Detected,
}

/// The `dma_int_err` bit as read.
pub type DmaIntErrR = BitReader<DmaIntErr>;

impl DmaIntErrR {
    /// The bit as a named value.
    pub fn variant(&self) -> (value: DmaIntErr)
        ensures
            value == (if self@ {
                DmaIntErr::Detected
            } else {
                DmaIntErr::NoErr
            }),
    {
        if self.bit() {
            DmaIntErr::Detected
        } else {
            DmaIntErr::NoErr
        }
    }

    /// Whether the bit is clear: no failure was seen.
    pub fn is_no_err(&self) -> (yes: bool)
        ensures
            yes == !self@,
    {
        !self.bit()
    }

    /// Whether the bit is set: the failure was seen.
    pub fn is_detected(&self) -> (yes: bool)
        ensures
            yes == self@,
    {
        self.bit()
    }
}

/// Slave-response failure on this descriptor.
#[derive(Clone, Copy, Debug, PartialEq, Eq)]
pub enum DmaSlvErr {
    /// Bit clear: no failure was seen.
    NoErr,
    /// Bit set: the failure was seen.
    Detected,
}

/// The `dma_slv_err` bit as read.
pub type DmaSlvErrR = BitReader<DmaSlvErr>;

impl DmaSlvErrR {
    /// The bit as a named value.
    pub fn variant(&self) -> (value: DmaSlvErr)
        ensures
            value == (if self@ {
                DmaSlvErr::Detected
            } else {
                DmaSlvErr::NoErr
            }),
    {
        if self.bit() {
            DmaSlvErr::Detected
        } else {
            DmaSlvErr::NoErr
        }
    }

    /// Whether the bit is clear: no failure was seen.
    pub fn is_no_err(&self) -> (yes: bool)
        ensures
            yes == !self@,
    {
        !self.bit()
    }

    /// Whether the bit is set: the failure was seen.
    pub fn is_detected(&self) -> (yes: bool)
        ensures
            yes == self@,
    {
        self.bit()
    }
}

/// Address-decode failure on this descriptor.
#[derive(Clone, Copy, Debug, PartialEq, Eq)]
pub enum DmaDecErr {
    /// Bit clear: no failure was seen.
    NoErr,
    /// Bit set: the failure was seen.
    Detected,
}

/// The `dma_dec_err` bit as read.
pub type DmaDecErrR = BitReader<DmaDecErr>;

impl DmaDecErrR {
    /// The bit as a named value.
    pub fn variant(&self) -> (value: DmaDecErr)
        ensures
            value == (if self@ {
                DmaDecErr::Detected
            } else {
                DmaDecErr::NoErr
            }),
    {
        if self.bit() {
            DmaDecErr::Detected
        } else {
            DmaDecErr::NoErr
        }
    }

    /// Whether the bit is clear: no failure was seen.
    pub fn is_no_err(&self) -> (yes: bool)
        ensures
            yes == !self@,
    {
        !self.bit()
    }

    /// Whether the bit is set: the failure was seen.
    pub fn is_detected(&self) -> (yes: bool)
        ensures
            yes == self@,
    {
        self.bit()
    }
}

/// Completion mark: the device is done with the descriptor.
#[derive(Clone, Copy, Debug, PartialEq, Eq)]
pub enum Cmplt {
    /// Bit clear: the device still owns the descriptor.
    False,
    /// Bit set: the device has released the descriptor.
    True,
}

/// The `cmplt` bit as read.
pub type CmpltR = BitReader<Cmplt>;

impl CmpltR {
    /// The bit as a named value.
    pub fn variant(&self) -> (value: Cmplt)
        ensures
            value == (if self@ {
                Cmplt::True
            } else {
                Cmplt::False
            }),
    {
        if self.bit() {
            Cmplt::True
        } else {
            Cmplt::False
        }
    }

    /// Whether the bit is clear: the device still owns the descriptor.
    pub fn is_false(&self) -> (yes: bool)
        ensures
            yes == !self@,
    {
        !self.bit()
    }

    /// Whether the bit is set: the device has released the descriptor.
    pub fn is_true(&self) -> (yes: bool)
        ensures
            yes == self@,
    {
        self.bit()
    }
}

impl R {
    /// Bits 0 to 25: number of bytes the device moved for this descriptor.
    pub fn tfer_bytes(&self) -> (field: TferBytesR)
        ensures
            field@ == field_of(self@, 0, 26),
    {
        TferBytesR::new(raw_field(self.bits(), 0, 26))
    }

    /// Bit 26: received end of frame: the buffer holds the last part of a
    /// packet.
    pub fn rxeof(&self) -> (field: RxeofR)
        ensures
            field@ == bit_of(self@, 26),
    {
        RxeofR::new(raw_bit(self.bits(), 26))
    }

    /// Bit 27: received start of frame: the buffer holds the first part of a
    /// packet.
    pub fn rxsof(&self) -> (field: RxsofR)
        ensures
            field@ == bit_of(self@, 27),
    {
        RxsofR::new(raw_bit(self.bits(), 27))
    }

    /// Bit 28: internal data-mover failure on this descriptor.
    pub fn dma_int_err(&self) -> (field: DmaIntErrR)
        ensures
            field@ == bit_of(self@, 28),
    {
        DmaIntErrR::new(raw_bit(self.bits(), 28))
    }

    /// Bit 29: slave-response failure on this descriptor.
    pub fn dma_slv_err(&self) -> (field: DmaSlvErrR)
        ensures
            field@ == bit_of(self@, 29),
    {
        DmaSlvErrR::new(raw_bit(self.bits(), 29))
    }

    /// Bit 30: address-decode failure on this descriptor.
    pub fn dma_dec_err(&self) -> (field: DmaDecErrR)
        ensures
            field@ == bit_of(self@, 30),
    {
        DmaDecErrR::new(raw_bit(self.bits(), 30))
    }

    /// Bit 31: completion mark: the device is done with the descriptor.
    pub fn cmplt(&self) -> (field: CmpltR)
        ensures
            field@ == bit_of(self@, 31),
    {
        CmpltR::new(raw_bit(self.bits(), 31))
    }
}

} // verus!
