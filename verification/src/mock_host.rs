//! A plain host adapter for driving the MCU shell in isolation: pin state is
//! kept in open bit masks, and reads sample a bit mask a test can set.

use vstd::prelude::*;

use crate::host_adapter::AnalogSignal;
use crate::host_adapter::HostAdapter;
use crate::host_adapter::Pin;

verus! {

/// A host whose pin state is plain storage. The fields are open so that a
/// test can inspect what the shell drove out and choose what reads sample.
pub struct MockHost {
    /// Digital levels the shell drove out, one bit per pin position.
    pub digital_out: u8,
    /// Output-enable configuration, one bit per pin position.
    pub output_enabled: u8,
    /// Pull-up configuration, one bit per pin position.
    pub pull_up: u8,
    /// Digital levels a read samples, one bit per pin position.
    pub digital_in: u8,
    /// The analog level a read samples, shared by every pin.
    pub analog_in: u16,
    /// The analog level last driven out on any pin.
    pub analog_out: u16,
}

impl MockHost {
    /// A host with every level low and everything disabled.
    pub fn new() -> (r: Self)
        ensures
            r.digital_out == 0,
            r.output_enabled == 0,
            r.pull_up == 0,
            r.digital_in == 0,
            r.analog_in == 0,
            r.analog_out == 0,
    {
        MockHost {
            digital_out: 0,
            output_enabled: 0,
            pull_up: 0,
            digital_in: 0,
            analog_in: 0,
            analog_out: 0,
        }
    }
}

impl HostAdapter for MockHost {
    open spec fn digital_at(&self, bit: u8) -> bool {
        self.digital_out & (1u8 << bit) != 0
    }

    open spec fn output_enabled_at(&self, bit: u8) -> bool {
        self.output_enabled & (1u8 << bit) != 0
    }

    open spec fn pull_up_at(&self, bit: u8) -> bool {
        self.pull_up & (1u8 << bit) != 0
    }

    fn read_pin_digital(&self, pin: Pin) -> bool {
        self.digital_in & (1u8 << pin.0) != 0
    }

    fn write_pin_digital(&mut self, pin: Pin, value: bool) {
        let ghost old_mask = self.digital_out;
        let ghost p = pin.0;
        if value {
            self.digital_out = self.digital_out | (1u8 << pin.0);
            proof {
                assert forall|b: u8| ((#[trigger] (self.digital_out & (1u8 << b))) != 0) == (if b == p {
                    true
                } else {
                    old_mask & (1u8 << b) != 0
                }) by {
                    assert(((old_mask | (1u8 << p)) & (1u8 << b) != 0) == (if b == p {
                        true
                    } else {
                        old_mask & (1u8 << b) != 0
                    })) by (bit_vector)
                        requires
                            p < 8,
                    ;
                }
            }
        } else {
            self.digital_out = self.digital_out & !(1u8 << pin.0);
            proof {
                assert forall|b: u8| ((#[trigger] (self.digital_out & (1u8 << b))) != 0) == (if b == p {
                    false
                } else {
                    old_mask & (1u8 << b) != 0
                }) by {
                    assert(((old_mask & !(1u8 << p)) & (1u8 << b) != 0) == (if b == p {
                        false
                    } else {
                        old_mask & (1u8 << b) != 0
                    })) by (bit_vector)
                        requires
                            p < 8,
                    ;
                }
            }
        }
    }

    fn read_pin_analog(&self, pin: Pin) -> AnalogSignal {
        AnalogSignal(self.analog_in)
    }

    fn write_pin_analog(&mut self, pin: Pin, value: AnalogSignal) {
        self.analog_out = value.0;
    }

    fn set_pin_output_enabled(&mut self, pin: Pin, enabled: bool) {
        let ghost old_mask = self.output_enabled;
        let ghost p = pin.0;
        if enabled {
            self.output_enabled = self.output_enabled | (1u8 << pin.0);
            proof {
                assert forall|b: u8| ((#[trigger] (self.output_enabled & (1u8 << b))) != 0) == (if b
                    == p {
                    true
                } else {
                    old_mask & (1u8 << b) != 0
                }) by {
                    assert(((old_mask | (1u8 << p)) & (1u8 << b) != 0) == (if b == p {
                        true
                    } else {
                        old_mask & (1u8 << b) != 0
                    })) by (bit_vector)
                        requires
                            p < 8,
                    ;
                }
            }
        } else {
            self.output_enabled = self.output_enabled & !(1u8 << pin.0);
            proof {
                assert forall|b: u8| ((#[trigger] (self.output_enabled & (1u8 << b))) != 0) == (if b
                    == p {
                    false
                } else {
                    old_mask & (1u8 << b) != 0
                }) by {
                    assert(((old_mask & !(1u8 << p)) & (1u8 << b) != 0) == (if b == p {
                        false
                    } else {
                        old_mask & (1u8 << b) != 0
                    })) by (bit_vector)
                        requires
                            p < 8,
                    ;
                }
            }
        }
    }

    fn set_pin_pull_up_enabled(&mut self, pin: Pin, enabled: bool) {
        let ghost old_mask = self.pull_up;
        let ghost p = pin.0;
        if enabled {
            self.pull_up = self.pull_up | (1u8 << pin.0);
            proof {
                assert forall|b: u8| ((#[trigger] (self.pull_up & (1u8 << b))) != 0) == (if b == p {
                    true
                } else {
                    old_mask & (1u8 << b) != 0
                }) by {
                    assert(((old_mask | (1u8 << p)) & (1u8 << b) != 0) == (if b == p {
                        true
                    } else {
                        old_mask & (1u8 << b) != 0
                    })) by (bit_vector)
                        requires
                            p < 8,
                    ;
                }
            }
        } else {
            self.pull_up = self.pull_up & !(1u8 << pin.0);
            proof {
                assert forall|b: u8| ((#[trigger] (self.pull_up & (1u8 << b))) != 0) == (if b == p {
                    false
                } else {
                    old_mask & (1u8 << b) != 0
                }) by {
                    assert(((old_mask & !(1u8 << p)) & (1u8 << b) != 0) == (if b == p {
                        false
                    } else {
                        old_mask & (1u8 << b) != 0
                    })) by (bit_vector)
                        requires
                            p < 8,
                    ;
                }
            }
        }
    }
}

} // verus!
