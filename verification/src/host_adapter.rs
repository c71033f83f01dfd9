//! The contract between the MCU shell and the world outside its pins.
//!
//! A host adapter carries the state of the chip's pins as the environment
//! sees them: the digital level last driven out, the output-enable and
//! pull-up configuration. Writes are exact in terms of those views; reads
//! sample the environment and promise nothing, since the world may drive a
//! pin however it likes.

use vstd::prelude::*;

verus! {

/// One pin of the part, named by its bit position within its port.
#[derive(Clone, Copy, Debug, Eq, PartialEq, Structural)]
pub struct Pin(pub u8);

impl Pin {
    /// The pin at the given bit position; positions are taken modulo the
    /// port width.
    pub fn from_bit_index(bit: u8) -> (r: Pin)
        ensures
            r.0 == bit % 8,
    {
        Pin(bit % 8)
    }

    /// The bit position within the port.
    pub fn bit_index(self) -> (r: u8)
        ensures
            r == self.0,
    {
        self.0
    }

    /// The pin's single-bit mask within its port byte.
    pub fn port_bit_mask(self) -> (r: u8)
        ensures
            r == 1u8 << (self.0 % 8),
    {
        1u8 << (self.0 % 8)
    }
}

/// An analog level carried as a 16-bit unsigned unit-range value.
#[derive(Clone, Copy, Debug, Eq, PartialEq, Structural)]
pub struct AnalogSignal(pub u16);

impl AnalogSignal {
    /// The signal denoting `value / 65535` of full scale.
    pub fn from_u16(value: u16) -> (r: Self)
        ensures
            r.0 == value,
    {
        AnalogSignal(value)
    }

    /// The raw 16-bit value.
    pub fn as_u16(self) -> (r: u16)
        ensures
            r == self.0,
    {
        self.0
    }
}

/// The world behind the pins. The shell drives pin state out through the
/// three write channels, whose effect on the views is exact; the read
/// channels sample whatever the environment is doing and promise nothing.
pub trait HostAdapter: Sized {
    /// The digital level last driven out on each bit position.
    spec fn digital_at(&self, bit: u8) -> bool;

    /// Whether each bit position is configured as an output.
    spec fn output_enabled_at(&self, bit: u8) -> bool;

    /// Whether the pull-up is enabled on each bit position.
    spec fn pull_up_at(&self, bit: u8) -> bool;

    /// Samples the digital level the environment drives on `pin`.
    fn read_pin_digital(&self, pin: Pin) -> bool
        requires
            pin.0 < 8,
    ;

    /// Drives a digital level out on `pin`.
    fn write_pin_digital(&mut self, pin: Pin, value: bool)
        requires
            pin.0 < 8,
        ensures
            forall|b: u8|
                #[trigger] final(self).digital_at(b) == (if b == pin.0 {
                    value
                } else {
                    old(self).digital_at(b)
                }),
            forall|b: u8| #[trigger] final(self).output_enabled_at(b) == old(
                self,
            ).output_enabled_at(b),
            forall|b: u8| #[trigger] final(self).pull_up_at(b) == old(self).pull_up_at(b),
    ;

    /// Samples the analog level the environment drives on `pin`.
    fn read_pin_analog(&self, pin: Pin) -> AnalogSignal
        requires
            pin.0 < 8,
    ;

    /// Drives an analog level out on `pin`; the digital views are untouched.
    fn write_pin_analog(&mut self, pin: Pin, value: AnalogSignal)
        requires
            pin.0 < 8,
        ensures
            forall|b: u8| #[trigger] final(self).digital_at(b) == old(self).digital_at(b),
            forall|b: u8| #[trigger] final(self).output_enabled_at(b) == old(
                self,
            ).output_enabled_at(b),
            forall|b: u8| #[trigger] final(self).pull_up_at(b) == old(self).pull_up_at(b),
    ;

    /// Configures `pin` as an output or an input.
    fn set_pin_output_enabled(&mut self, pin: Pin, enabled: bool)
        requires
            pin.0 < 8,
        ensures
            forall|b: u8|
                #[trigger] final(self).output_enabled_at(b) == (if b == pin.0 {
                    enabled
                } else {
                    old(self).output_enabled_at(b)
                }),
            forall|b: u8| #[trigger] final(self).digital_at(b) == old(self).digital_at(b),
            forall|b: u8| #[trigger] final(self).pull_up_at(b) == old(self).pull_up_at(b),
    ;

    /// Enables or disables the pull-up on `pin`.
    fn set_pin_pull_up_enabled(&mut self, pin: Pin, enabled: bool)
        requires
            pin.0 < 8,
        ensures
            forall|b: u8|
                #[trigger] final(self).pull_up_at(b) == (if b == pin.0 {
                    enabled
                } else {
                    old(self).pull_up_at(b)
                }),
            forall|b: u8| #[trigger] final(self).digital_at(b) == old(self).digital_at(b),
            forall|b: u8| #[trigger] final(self).output_enabled_at(b) == old(
                self,
            ).output_enabled_at(b),
    ;
}

} // verus!
