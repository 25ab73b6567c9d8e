use vstd::prelude::*;

use crate::interrupt::{InterruptFlag, InterruptHandler};
use crate::region::{MemoryRegion, IO_JOYPAD_REGION};

verus! {

/// Default value of the P1 register
pub const DEFAULT_REG_DMG_P1: u8 = 0xCF;

pub const FLAG_ACTION_BUTTON: u8 = 0x20;
pub const FLAG_DIR_BUTTON: u8 = 0x10;

/// The eight buttons of the console.
#[derive(Clone, Copy, PartialEq, Eq, Structural, Debug)]
pub enum Button {
    Start,
    Select,
    B,
    A,
    Down,
    Up,
    Left,
    Right,
}

/// The P1 code of a button: bit 5 marks an action button, bit 4 a direction,
/// and one of bits 0 to 3 the button itself.
pub open spec fn button_code(button: Button) -> u8 {
    match button {
        Button::Start => 0b00101000,
        Button::Select => 0b00100100,
        Button::B => 0b00100010,
        Button::A => 0b00100001,
        Button::Down => 0b00011000,
        Button::Up => 0b00010100,
        Button::Left => 0b00010010,
        Button::Right => 0b00010001,
    }
}

impl Button {
    /// The P1 code of this button.
    pub fn code(self) -> (c: u8)
        ensures
            c == button_code(self),
    {
        match self {
            Button::Start => 0b00101000,
            Button::Select => 0b00100100,
            Button::B => 0b00100010,
            Button::A => 0b00100001,
            Button::Down => 0b00011000,
            Button::Up => 0b00010100,
            Button::Left => 0b00010010,
            Button::Right => 0b00010001,
        }
    }
}

/// Whether a button is one of the action buttons (A, B, Select, Start).
pub open spec fn is_action(button: Button) -> bool {
    button_code(button) & FLAG_ACTION_BUTTON == FLAG_ACTION_BUTTON
}

pub struct Joypad {
    /// Complement of the last value written to P1 (only bits 4 and 5 matter)
    pub reg_p1: u8,
    /// Pressed action buttons
    pub button_state: u8,
    /// Pressed direction buttons
    pub dir_state: u8,
}

impl Joypad {
    /// The joypad after power-on.
    pub open spec fn initial() -> Joypad {
        Joypad { reg_p1: DEFAULT_REG_DMG_P1, button_state: 0, dir_state: 0 }
    }

    /// The joypad after `button` is pressed or released.
    pub open spec fn with_button(self, button: Button, is_pressed: bool) -> Joypad {
        let code = button_code(button);
        if is_action(button) {
            Joypad {
                button_state: if is_pressed {
                    self.button_state | code
                } else {
                    self.button_state & !code
                },
                ..self
            }
        } else {
            Joypad {
                dir_state: if is_pressed {
                    self.dir_state | code
                } else {
                    self.dir_state & !code
                },
                ..self
            }
        }
    }

    /// What a read of P1 gives: the selected group of buttons, a pressed one as 0.
    pub open spec fn p1(self) -> u8 {
        let select = self.reg_p1 & 0x30;
        if select == 0x10 {
            select | !self.dir_state
        } else if select == 0x20 {
            select | !self.button_state
        } else {
            self.reg_p1
        }
    }

    pub fn new() -> (j: Self)
        ensures
            j == Self::initial(),
    {
        Self { reg_p1: DEFAULT_REG_DMG_P1, button_state: 0, dir_state: 0 }
    }

    /// Reset all registers and state
    pub fn reset(&mut self)
        ensures
            *final(self) == Self::initial(),
    {
        self.reg_p1 = DEFAULT_REG_DMG_P1;
        self.button_state = 0;
        self.dir_state = 0;
    }

    /// Record a press or a release; a press raises the joypad interrupt.
    pub fn set_button(&mut self, button: Button, is_pressed: bool, it: &mut InterruptHandler)
        ensures
            *final(self) == old(self).with_button(button, is_pressed),
            *final(it) == (if is_pressed {
                old(it).requested(InterruptFlag::Joypad)
            } else {
                *old(it)
            }),
    {
        let button_code = button.code();
        assert(button_code & FLAG_ACTION_BUTTON == FLAG_ACTION_BUTTON || button_code
            & FLAG_DIR_BUTTON == FLAG_DIR_BUTTON) by (bit_vector)
            requires
                button_code == 0x28u8 || button_code == 0x24u8 || button_code == 0x22u8
                    || button_code == 0x21u8 || button_code == 0x18u8 || button_code == 0x14u8
                    || button_code == 0x12u8 || button_code == 0x11u8,
        ;
        if (button_code & FLAG_ACTION_BUTTON) == FLAG_ACTION_BUTTON {
            if is_pressed {
                self.button_state = self.button_state | button_code;
                it.request(InterruptFlag::Joypad);
            } else {
                self.button_state = self.button_state & !button_code;
            }
        } else if (button_code & FLAG_DIR_BUTTON) == FLAG_DIR_BUTTON {
            if is_pressed {
                self.dir_state = self.dir_state | button_code;
                it.request(InterruptFlag::Joypad);
            } else {
                self.dir_state = self.dir_state & !button_code;
            }
        }
    }
}

impl MemoryRegion for Joypad {
    open spec fn maps(address: u16) -> bool {
        address == IO_JOYPAD_REGION
    }

    open spec fn inv(&self) -> bool {
        true
    }

    fn read(&self, address: u16) -> (r: u8)
        ensures
            r == self.p1(),
    {
        let select = self.reg_p1 & 0x30;
        if select == 0x10 {
            select | !self.dir_state
        } else if select == 0x20 {
            select | !self.button_state
        } else {
            self.reg_p1
        }
    }

    /// 0 selects a group, so the complement is kept and masked on read.
    fn write(&mut self, address: u16, value: u8)
        ensures
            *final(self) == (Joypad { reg_p1: !value, ..*old(self) }),
    {
        self.reg_p1 = !value;
    }
}

/// With the group of a button selected on P1, a read shows the button as pressed (bit at 0)
/// after it is pressed, and as released (bit at 1) after it is released.
pub proof fn law_button_read(j: Joypad, button: Button, is_pressed: bool)
    requires
        j.reg_p1 & 0x30 == (if is_action(button) { 0x20u8 } else { 0x10u8 }),
    ensures
        (j.with_button(button, is_pressed).p1() & button_code(button) & 0x0F == 0) == is_pressed,
{
    let code = button_code(button);
    let p1 = j.reg_p1;
    let bs = j.button_state;
    let ds = j.dir_state;
    assert(0x28u8 & 0x20u8 == 0x20u8 && 0x24u8 & 0x20u8 == 0x20u8 && 0x22u8 & 0x20u8 == 0x20u8
        && 0x21u8 & 0x20u8 == 0x20u8 && 0x18u8 & 0x20u8 != 0x20u8 && 0x14u8 & 0x20u8 != 0x20u8
        && 0x12u8 & 0x20u8 != 0x20u8 && 0x11u8 & 0x20u8 != 0x20u8) by (bit_vector);
    let action = match button {
        Button::Start | Button::Select | Button::B | Button::A => true,
        _ => false,
    };
    assert(action == is_action(button));
    if action {
        assert(code & 0x20u8 == 0x20u8);
        assert(((p1 & 0x30u8) | !(bs | code)) & code & 0x0Fu8 == 0u8) by (bit_vector)
            requires
                code == 0x28u8 || code == 0x24u8 || code == 0x22u8 || code == 0x21u8,
        ;
        assert(((p1 & 0x30u8) | !(bs & !code)) & code & 0x0Fu8 != 0u8) by (bit_vector)
            requires
                code == 0x28u8 || code == 0x24u8 || code == 0x22u8 || code == 0x21u8,
        ;
    } else {
        assert(code & 0x20u8 != 0x20u8);
        assert(((p1 & 0x30u8) | !(ds | code)) & code & 0x0Fu8 == 0u8) by (bit_vector)
            requires
                code == 0x18u8 || code == 0x14u8 || code == 0x12u8 || code == 0x11u8,
        ;
        assert(((p1 & 0x30u8) | !(ds & !code)) & code & 0x0Fu8 != 0u8) by (bit_vector)
            requires
                code == 0x18u8 || code == 0x14u8 || code == 0x12u8 || code == 0x11u8,
        ;
    }
}

} // verus!
