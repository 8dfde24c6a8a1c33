//! Joypad latch: two active-low selection bits pick the button row or the
//! direction row, and the low nibble of the register reports the pressed
//! state of the selected row, also active-low.

use vstd::prelude::*;

verus! {

#[derive(Debug, Clone, Copy)]
pub enum JoypadButton {
    A,
    B,
    Start,
    Select,
    Up,
    Down,
    Left,
    Right,
}

pub struct Joypad {
    pub a: bool,
    pub b: bool,
    pub start: bool,
    pub select: bool,
    pub up: bool,
    pub down: bool,
    pub left: bool,
    pub right: bool,
    pub select_buttons: bool,
    pub select_directions: bool,
}

/// The register value, active-low throughout: bit 5 reads zero while the
/// button row is selected, bit 4 while the direction row is, and the low
/// nibble clears a bit for each pressed key of a selected row.
pub open spec fn joypad_value(j: Joypad) -> u8 {
    let base: u8 = 0xFF;
    let base = if j.select_buttons {
        base & 0xDF
    } else {
        base
    };
    let base = if j.select_directions {
        base & 0xEF
    } else {
        base
    };
    let base = if j.select_buttons && j.a {
        base & 0xFE
    } else {
        base
    };
    let base = if j.select_buttons && j.b {
        base & 0xFD
    } else {
        base
    };
    let base = if j.select_buttons && j.select {
        base & 0xFB
    } else {
        base
    };
    let base = if j.select_buttons && j.start {
        base & 0xF7
    } else {
        base
    };
    let base = if j.select_directions && j.right {
        base & 0xFE
    } else {
        base
    };
    let base = if j.select_directions && j.left {
        base & 0xFD
    } else {
        base
    };
    let base = if j.select_directions && j.up {
        base & 0xFB
    } else {
        base
    };
    if j.select_directions && j.down {
        base & 0xF7
    } else {
        base
    }
}

/// The latch after a key changes state.
pub open spec fn joypad_set(j: Joypad, button: JoypadButton, pressed: bool) -> Joypad {
    match button {
        JoypadButton::A => Joypad { a: pressed, ..j },
        JoypadButton::B => Joypad { b: pressed, ..j },
        JoypadButton::Start => Joypad { start: pressed, ..j },
        JoypadButton::Select => Joypad { select: pressed, ..j },
        JoypadButton::Up => Joypad { up: pressed, ..j },
        JoypadButton::Down => Joypad { down: pressed, ..j },
        JoypadButton::Left => Joypad { left: pressed, ..j },
        JoypadButton::Right => Joypad { right: pressed, ..j },
    }
}

/// Whether any key of a currently selected row is held.
pub open spec fn joypad_row_active(j: Joypad) -> bool {
    (j.select_buttons && (j.a || j.b || j.select || j.start)) || (j.select_directions && (j.right
        || j.left || j.up || j.down))
}

impl Joypad {
    pub fn new() -> (r: Joypad)
        ensures
            r == (Joypad {
                a: false,
                b: false,
                start: false,
                select: false,
                up: false,
                down: false,
                left: false,
                right: false,
                select_buttons: false,
                select_directions: false,
            }),
    {
        Joypad {
            a: false,
            b: false,
            start: false,
            select: false,
            up: false,
            down: false,
            left: false,
            right: false,
            select_buttons: false,
            select_directions: false,
        }
    }

    pub fn read_register(&self) -> (r: u8)
        ensures
            r == joypad_value(*self),
    {
        let mut result: u8 = 0xFF;
        if self.select_buttons {
            result = result & 0xDF;
        }
        if self.select_directions {
            result = result & 0xEF;
        }
        if self.select_buttons {
            if self.a {
                result = result & 0xFE;
            }
            if self.b {
                result = result & 0xFD;
            }
            if self.select {
                result = result & 0xFB;
            }
            if self.start {
                result = result & 0xF7;
            }
        }
        if self.select_directions {
            if self.right {
                result = result & 0xFE;
            }
            if self.left {
                result = result & 0xFD;
            }
            if self.up {
                result = result & 0xFB;
            }
            if self.down {
                result = result & 0xF7;
            }
        }
        result
    }

    /// Only the two selection bits are writable, both active-low.
    pub fn write_register(&mut self, value: u8)
        ensures
            *final(self) == (Joypad {
                select_buttons: value & 0x20 == 0,
                select_directions: value & 0x10 == 0,
                ..*old(self)
            }),
    {
        self.select_buttons = (value & 0x20) == 0;
        self.select_directions = (value & 0x10) == 0;
    }

    pub fn set_button(&mut self, button: JoypadButton, pressed: bool)
        ensures
            *final(self) == joypad_set(*old(self), button, pressed),
    {
        match button {
            JoypadButton::A => self.a = pressed,
            JoypadButton::B => self.b = pressed,
            JoypadButton::Start => self.start = pressed,
            JoypadButton::Select => self.select = pressed,
            JoypadButton::Up => self.up = pressed,
            JoypadButton::Down => self.down = pressed,
            JoypadButton::Left => self.left = pressed,
            JoypadButton::Right => self.right = pressed,
        }
    }

    /// Whether a key of a selected row is held; a press that makes this
    /// true raises the joypad interrupt.
    pub fn button_pressed(&self) -> (r: bool)
        ensures
            r == joypad_row_active(*self),
    {
        let buttons_active = self.select_buttons && (self.a || self.b || self.select
            || self.start);
        let directions_active = self.select_directions && (self.right || self.left || self.up
            || self.down);
        buttons_active || directions_active
    }
}

} // verus!
