use vstd::prelude::*;

verus! {

/// A gamepad button, in shift-register order: A is read out first, Right
/// last.
#[derive(Clone, Copy, Debug, PartialEq, Eq, Structural)]
pub enum Button {
    A,
    B,
    Select,
    Start,
    Up,
    Down,
    Left,
    Right,
}

/// Mathematical image of the input latch: the live key state of player one,
/// the two shift registers, and the strobe latch.
#[verifier::ext_equal]
pub ghost struct InputView {
    pub state_p1_a: bool,
    pub state_p1_b: bool,
    pub state_p1_select: bool,
    pub state_p1_start: bool,
    pub state_p1_up: bool,
    pub state_p1_down: bool,
    pub state_p1_left: bool,
    pub state_p1_right: bool,
    pub buffer_1: u8,
    pub buffer_2: u8,
    pub reload: bool,
    pub strobe: bool,
}

impl InputView {
    /// The player-one shift register loaded from the live key state:
    /// bit 0 = A, 1 = B, 2 = Select, 3 = Start, 4 = Up, 5 = Down, 6 = Left,
    /// 7 = Right.
    pub open spec fn packed_state(self) -> u8 {
        ((if self.state_p1_a {
            1u8
        } else {
            0u8
        }) | ((if self.state_p1_b {
            1u8
        } else {
            0u8
        }) << 1) | ((if self.state_p1_select {
            1u8
        } else {
            0u8
        }) << 2) | ((if self.state_p1_start {
            1u8
        } else {
            0u8
        }) << 3) | ((if self.state_p1_up {
            1u8
        } else {
            0u8
        }) << 4) | ((if self.state_p1_down {
            1u8
        } else {
            0u8
        }) << 5) | ((if self.state_p1_left {
            1u8
        } else {
            0u8
        }) << 6) | ((if self.state_p1_right {
            1u8
        } else {
            0u8
        }) << 7)) as u8
    }

    /// Both shift registers reloaded: player one from the key state, player
    /// two always empty.
    pub open spec fn reloaded(self) -> InputView {
        InputView { buffer_1: self.packed_state(), buffer_2: 0, ..self }
    }

    /// The key state with one button changed.
    pub open spec fn with_button(self, button: Button, pressed: bool) -> InputView {
        match button {
            Button::A => InputView { state_p1_a: pressed, ..self },
            Button::B => InputView { state_p1_b: pressed, ..self },
            Button::Select => InputView { state_p1_select: pressed, ..self },
            Button::Start => InputView { state_p1_start: pressed, ..self },
            Button::Up => InputView { state_p1_up: pressed, ..self },
            Button::Down => InputView { state_p1_down: pressed, ..self },
            Button::Left => InputView { state_p1_left: pressed, ..self },
            Button::Right => InputView { state_p1_right: pressed, ..self },
        }
    }

    /// A key event: record the button, and while strobing reload the shift
    /// registers at once.
    pub open spec fn on_key(self, button: Button, pressed: bool) -> InputView {
        let s = self.with_button(button, pressed);
        if s.strobe {
            s.reloaded()
        } else {
            s
        }
    }

    /// State and value of a controller-port read: while strobing the shift
    /// registers are reloaded first; the read returns bit 0 of the port's
    /// register and shifts it right once.
    pub open spec fn read(self, address: u16) -> (InputView, u8) {
        let s = if self.strobe {
            self.reloaded()
        } else {
            self
        };
        if address == 0x4016 {
            (InputView { buffer_1: s.buffer_1 >> 1, ..s }, s.buffer_1 & 1)
        } else {
            (InputView { buffer_2: s.buffer_2 >> 1, ..s }, s.buffer_2 & 1)
        }
    }

    /// State after a controller-port write: bit 0 of a $4016 write enters or
    /// leaves strobe, and entering reloads the shift registers.
    pub open spec fn write(self, address: u16, value: u8) -> InputView {
        if address == 0x4016 {
            if value & 1 != 0 {
                InputView { strobe: true, ..self }.reloaded()
            } else {
                InputView { strobe: false, ..self }
            }
        } else {
            self
        }
    }
}

/// Controller-input latch: two 8-bit shift registers snapshotting the key
/// state, reloaded continuously while the strobe latch is set.
pub struct Input {
    // Live key state of player one
    pub state_p1_a: bool,
    pub state_p1_b: bool,
    pub state_p1_select: bool,
    pub state_p1_start: bool,
    pub state_p1_up: bool,
    pub state_p1_down: bool,
    pub state_p1_left: bool,
    pub state_p1_right: bool,

    /// Shift register of player one
    /// bit:    0     1     2      3     4     5     6     7
    /// button: A     B  Select Start  Up   Down  Left  Right
    pub buffer_1: u8,

    /// Shift register of player two (same layout)
    pub buffer_2: u8,

    /// When set, a read reloads the shift registers before shifting.
    pub reload: bool,

    /// Strobe: while set, reloading never stops.
    pub strobe: bool,
}

impl View for Input {
    type V = InputView;

    open spec fn view(&self) -> InputView {
        InputView {
            state_p1_a: self.state_p1_a,
            state_p1_b: self.state_p1_b,
            state_p1_select: self.state_p1_select,
            state_p1_start: self.state_p1_start,
            state_p1_up: self.state_p1_up,
            state_p1_down: self.state_p1_down,
            state_p1_left: self.state_p1_left,
            state_p1_right: self.state_p1_right,
            buffer_1: self.buffer_1,
            buffer_2: self.buffer_2,
            reload: self.reload,
            strobe: self.strobe,
        }
    }
}

/// The cleared input latch.
pub open spec fn spec_input_reset() -> InputView {
    InputView {
        state_p1_a: false,
        state_p1_b: false,
        state_p1_select: false,
        state_p1_start: false,
        state_p1_up: false,
        state_p1_down: false,
        state_p1_left: false,
        state_p1_right: false,
        buffer_1: 0,
        buffer_2: 0,
        reload: false,
        strobe: false,
    }
}

impl Input {
    pub fn new() -> (r: Input)
        ensures
            r@ == spec_input_reset(),
    {
        Input {
            state_p1_a: false,
            state_p1_b: false,
            state_p1_select: false,
            state_p1_start: false,
            state_p1_up: false,
            state_p1_down: false,
            state_p1_left: false,
            state_p1_right: false,
            buffer_1: 0,
            buffer_2: 0,
            reload: false,
            strobe: false,
        }
    }

    fn on_key(&mut self, button: Button, pressed: bool)
        ensures
            final(self)@ == old(self)@.with_button(button, pressed),
    {
        match button {
            Button::A => {
                self.state_p1_a = pressed;
            },
            Button::B => {
                self.state_p1_b = pressed;
            },
            Button::Select => {
                self.state_p1_select = pressed;
            },
            Button::Start => {
                self.state_p1_start = pressed;
            },
            Button::Up => {
                self.state_p1_up = pressed;
            },
            Button::Down => {
                self.state_p1_down = pressed;
            },
            Button::Left => {
                self.state_p1_left = pressed;
            },
            Button::Right => {
                self.state_p1_right = pressed;
            },
        }
    }

    pub fn on_key_down(&mut self, button: Button)
        ensures
            final(self)@ == old(self)@.on_key(button, true),
    {
        self.on_key(button, true);
        if self.strobe {
            self.reload();
        }
    }

    pub fn on_key_up(&mut self, button: Button)
        ensures
            final(self)@ == old(self)@.on_key(button, false),
    {
        self.on_key(button, false);
        if self.strobe {
            self.reload();
        }
    }

    pub fn reset(&mut self)
        ensures
            final(self)@ == spec_input_reset(),
    {
        self.strobe = false;
        self.reload = false;

        self.buffer_1 = 0;
        self.buffer_2 = 0;

        self.state_p1_a = false;
        self.state_p1_b = false;
        self.state_p1_select = false;
        self.state_p1_start = false;
        self.state_p1_up = false;
        self.state_p1_down = false;
        self.state_p1_left = false;
        self.state_p1_right = false;
    }

    pub fn reload(&mut self)
        ensures
            final(self)@ == old(self)@.reloaded(),
    {
        self.buffer_1 = (if self.state_p1_a {
            1u8
        } else {
            0u8
        }) | ((if self.state_p1_b {
            1u8
        } else {
            0u8
        }) << 1) | ((if self.state_p1_select {
            1u8
        } else {
            0u8
        }) << 2) | ((if self.state_p1_start {
            1u8
        } else {
            0u8
        }) << 3) | ((if self.state_p1_up {
            1u8
        } else {
            0u8
        }) << 4) | ((if self.state_p1_down {
            1u8
        } else {
            0u8
        }) << 5) | ((if self.state_p1_left {
            1u8
        } else {
            0u8
        }) << 6) | ((if self.state_p1_right {
            1u8
        } else {
            0u8
        }) << 7);

        self.buffer_2 = 0;
    }

    /// Read a controller port; only $4016 and $4017 reach the latch.
    pub fn read(&mut self, address: u16) -> (r: u8)
        requires
            address == 0x4016 || address == 0x4017,
        ensures
            (final(self)@, r) == old(self)@.read(address),
    {
        if self.strobe {
            self.reload();
        }

        if address == 0x4016 {
            let r = self.buffer_1 & 0x1;
            self.buffer_1 = self.buffer_1 >> 1;
            r
        } else {
            let r = self.buffer_2 & 0x1;
            self.buffer_2 = self.buffer_2 >> 1;
            r
        }
    }

    pub fn write(&mut self, address: u16, value: u8)
        ensures
            final(self)@ == old(self)@.write(address, value),
    {
        if address == 0x4016 {
            if value & 0x1 != 0 {
                // Strobe on
                self.strobe = true;
                self.reload();
            } else {
                // Strobe off
                self.strobe = false;
            }
        }
    }
}

} // verus!
