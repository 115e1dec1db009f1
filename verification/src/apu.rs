use vstd::prelude::*;

verus! {

/// Mathematical image of the audio stub: one length counter and the
/// frame-sequencer cycle count.
#[verifier::ext_equal]
pub ghost struct ApuView {
    pub ch1_length: u8,
    pub cycles: u32,
}

impl ApuView {
    /// The cycle counter is wrapped to zero when it reaches 29830, so it
    /// always stays below that.
    pub open spec fn wf(self) -> bool {
        self.cycles < 29830
    }

    /// The length counter after one length-sequencer tick: decremented,
    /// saturating at zero.
    pub open spec fn step_length(self) -> ApuView {
        if self.ch1_length > 0 {
            ApuView { ch1_length: (self.ch1_length - 1) as u8, ..self }
        } else {
            self
        }
    }

    /// State after one APU cycle: the counter advances, the length sequencer
    /// ticks at the half- and end-of-sequence points, and the counter wraps
    /// at the sequence end.
    pub open spec fn step(self) -> ApuView {
        let c = ApuView { cycles: (self.cycles + 1) as u32, ..self };
        if c.cycles == 14913 {
            c.step_length()
        } else if c.cycles == 29829 {
            c.step_length()
        } else if c.cycles == 29830 {
            ApuView { cycles: 0, ..c }
        } else {
            c
        }
    }

    /// Value a register read yields: $4015 reports whether the length
    /// counter is live; every other register reads as zero.
    pub open spec fn read(self, address: u16) -> u8 {
        if address == 0x4015 {
            if self.ch1_length > 0 {
                1u8
            } else {
                0u8
            }
        } else {
            0u8
        }
    }
}

/// Audio unit stub: a placeholder 240-Hz frame sequencer with one length
/// counter and no mixing.
pub struct APU {
    pub ch1_length: u8,
    pub cycles: u32,
}

impl View for APU {
    type V = ApuView;

    open spec fn view(&self) -> ApuView {
        ApuView { ch1_length: self.ch1_length, cycles: self.cycles }
    }
}

impl APU {
    pub fn new() -> (r: APU)
        ensures
            r@ == (ApuView { ch1_length: 0, cycles: 0 }),
            r@.wf(),
    {
        APU { ch1_length: 0, cycles: 0 }
    }

    pub fn reset(&mut self)
        ensures
            final(self)@ == (ApuView { ch1_length: 0, ..old(self)@ }),
    {
        self.ch1_length = 0;
    }

    pub fn step(&mut self)
        requires
            old(self)@.wf(),
        ensures
            final(self)@ == old(self)@.step(),
            final(self)@.wf(),
    {
        self.cycles = self.cycles + 1;

        if self.cycles == 14913 {
            self.step_length();
        } else if self.cycles == 29829 {
            self.step_length();
        } else if self.cycles == 29830 {
            self.cycles = 0;
        }
    }

    pub fn step_length(&mut self)
        ensures
            final(self)@ == old(self)@.step_length(),
    {
        if self.ch1_length > 0 {
            self.ch1_length = self.ch1_length - 1;
        }
    }

    pub fn read(&mut self, address: u16) -> (r: u8)
        ensures
            final(self)@ == old(self)@,
            r == old(self)@.read(address),
    {
        match address {
            0x4015 => {
                if self.ch1_length > 0 {
                    1
                } else {
                    0
                }
            },
            _ => 0,
        }
    }

    /// No register writes are modelled; every write is dropped.
    pub fn write(&mut self, address: u16, value: u8)
        ensures
            final(self)@ == old(self)@,
    {
    }
}

} // verus!
