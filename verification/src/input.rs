//! The joypad: eight buttons, the host keys that press them, and the
//! register through which the program reads them.
//!
//! The program selects a group of four buttons by setting bit 4 (the
//! directional keys) or bit 5 (the action buttons) of the register; the low
//! nibble then reads active-low, a clear bit for a pressed button.

use vstd::prelude::*;
use crate::alu::{bit_is_set, bit_value, lemma_bit_weights};
use crate::memory::MemoryBus;
use crate::registers::lemma_flag_bits;

verus! {

/// Address of the joypad register.
pub const JOYPAD_ADDRESS: u16 = 0xFF00;

/// What the register reads while no group is selected.
pub const JOYPAD_IDLE: u8 = 0xCF;

/// The eight buttons of the joypad.
#[derive(Clone, Copy, Debug, PartialEq, Eq, Structural)]
pub enum Button {
    Up,
    Down,
    Left,
    Right,
    A,
    B,
    Start,
    Select,
}

/// The keys of the host keyboard that the joypad listens to.
#[derive(Clone, Copy, Debug, PartialEq, Eq, Structural)]
pub enum KeyCode {
    Up,
    Down,
    Left,
    Right,
    Z,
    X,
    Return,
    RShift,
    /// Any other key.
    Other,
}

/// A key going down or up, as the host reports it.
#[derive(Clone, Copy, Debug, PartialEq, Eq, Structural)]
pub struct KeyboardInput {
    /// The key, where the host could name it.
    pub virtual_keycode: Option<KeyCode>,
    pub pressed: bool,
}

/// The state of the eight buttons, indexed by `Button::index`.
#[derive(Clone, Copy, Debug)]
pub struct IPU {
    pub buttons: [bool; 8],
}

impl Button {
    /// The button's place in the button array.
    pub open spec fn spec_index(self) -> int {
        match self {
            Button::Up => 0,
            Button::Down => 1,
            Button::Left => 2,
            Button::Right => 3,
            Button::A => 4,
            Button::B => 5,
            Button::Start => 6,
            Button::Select => 7,
        }
    }

    pub fn index(self) -> (i: usize)
        ensures
            i == self.spec_index(),
    {
        match self {
            Button::Up => 0,
            Button::Down => 1,
            Button::Left => 2,
            Button::Right => 3,
            Button::A => 4,
            Button::B => 5,
            Button::Start => 6,
            Button::Select => 7,
        }
    }
}

impl KeyCode {
    /// The button that a key presses, if it presses one.
    pub open spec fn spec_button(self) -> Option<Button> {
        match self {
            KeyCode::Up => Some(Button::Up),
            KeyCode::Down => Some(Button::Down),
            KeyCode::Left => Some(Button::Left),
            KeyCode::Right => Some(Button::Right),
            KeyCode::Z => Some(Button::A),
            KeyCode::X => Some(Button::B),
            KeyCode::Return => Some(Button::Start),
            KeyCode::RShift => Some(Button::Select),
            KeyCode::Other => None,
        }
    }

    pub fn button(self) -> (button: Option<Button>)
        ensures
            button == self.spec_button(),
    {
        match self {
            KeyCode::Up => Some(Button::Up),
            KeyCode::Down => Some(Button::Down),
            KeyCode::Left => Some(Button::Left),
            KeyCode::Right => Some(Button::Right),
            KeyCode::Z => Some(Button::A),
            KeyCode::X => Some(Button::B),
            KeyCode::Return => Some(Button::Start),
            KeyCode::RShift => Some(Button::Select),
            KeyCode::Other => None,
        }
    }
}

/// The low nibble for a group of four buttons, most significant first:
/// a bit is clear where its button is pressed.
pub open spec fn active_low(bit3: bool, bit2: bool, bit1: bool, bit0: bool) -> int {
    15 - (8 * bit_value(bit3) + 4 * bit_value(bit2) + 2 * bit_value(bit1) + bit_value(bit0))
}

/// What the joypad register reads, given what the program wrote to it and
/// the buttons held. The high nibble is kept. With bit 4 set the low nibble
/// shows Down, Up, Left, Right from bit 3 to bit 0; else with bit 5 set it
/// shows Start, Select, B, A; with neither the register reads `JOYPAD_IDLE`.
pub open spec fn joypad_byte(written: u8, buttons: Seq<bool>) -> u8
    recommends
        buttons.len() == 8,
{
    let high = written as int / 16 * 16;
    if bit_is_set(written, 4) {
        (high + active_low(
            buttons[Button::Down.spec_index()],
            buttons[Button::Up.spec_index()],
            buttons[Button::Left.spec_index()],
            buttons[Button::Right.spec_index()],
        )) as u8
    } else if bit_is_set(written, 5) {
        (high + active_low(
            buttons[Button::Start.spec_index()],
            buttons[Button::Select.spec_index()],
            buttons[Button::B.spec_index()],
            buttons[Button::A.spec_index()],
        )) as u8
    } else {
        JOYPAD_IDLE
    }
}

/// The buttons after a report from the host: a key that presses a button
/// sets that button to the key's state, and nothing else changes.
pub open spec fn buttons_after(buttons: Seq<bool>, event: Option<KeyboardInput>) -> Seq<bool> {
    match event {
        Some(input) => match input.virtual_keycode {
            Some(key) => match key.spec_button() {
                Some(button) => buttons.update(button.spec_index(), input.pressed),
                None => buttons,
            },
            None => buttons,
        },
        None => buttons,
    }
}

impl IPU {
    /// A joypad with no button held.
    pub fn new() -> (ipu: Self)
        ensures
            ipu.buttons@ == Seq::new(8, |i: int| false),
    {
        let ipu = IPU { buttons: [false; 8] };
        assert(ipu.buttons@ =~= Seq::new(8, |i: int| false));
        ipu
    }

    /// Whether a button is held.
    pub fn get(&self, key: Button) -> (pressed: bool)
        ensures
            pressed == self.buttons@[key.spec_index()],
    {
        self.buttons[key.index()]
    }

    /// Records a button as held or released.
    pub fn set(&mut self, key: Button, pressed: bool)
        ensures
            final(self).buttons@ == old(self).buttons@.update(key.spec_index(), pressed),
    {
        self.buttons[key.index()] = pressed;
    }

    /// Shows the buttons of the selected group in the joypad register.
    pub fn update_byte(&self, bus: &mut MemoryBus)
        ensures
            final(bus)@ == old(bus)@.write(
                JOYPAD_ADDRESS,
                joypad_byte(old(bus)@.read(JOYPAD_ADDRESS), self.buttons@),
            ),
    {
        let curr = bus.read_byte(JOYPAD_ADDRESS);
        proof {
            lemma_bit_weights(curr);
            lemma_flag_bits(0, 0, 0, 0, curr);
        }
        let shown = if curr & 0x10 != 0 {
            (curr & 0xF0) + Self::nibble(
                self.get(Button::Down),
                self.get(Button::Up),
                self.get(Button::Left),
                self.get(Button::Right),
            )
        } else if curr & 0x20 != 0 {
            (curr & 0xF0) + Self::nibble(
                self.get(Button::Start),
                self.get(Button::Select),
                self.get(Button::B),
                self.get(Button::A),
            )
        } else {
            JOYPAD_IDLE
        };
        bus.write_byte(JOYPAD_ADDRESS, shown);
    }

    /// The active-low nibble for four buttons, most significant first.
    fn nibble(bit3: bool, bit2: bool, bit1: bool, bit0: bool) -> (low: u8)
        ensures
            low == active_low(bit3, bit2, bit1, bit0),
    {
        let mut held: u8 = 0;
        if bit3 {
            held = held + 8;
        }
        if bit2 {
            held = held + 4;
        }
        if bit1 {
            held = held + 2;
        }
        if bit0 {
            held = held + 1;
        }
        0x0F - held
    }

    /// Takes a report from the host, `None` for one that is no keyboard
    /// input, and shows the buttons in the joypad register.
    pub fn poll(&mut self, bus: &mut MemoryBus, event: Option<KeyboardInput>)
        ensures
            final(self).buttons@ == buttons_after(old(self).buttons@, event),
            final(bus)@ == old(bus)@.write(
                JOYPAD_ADDRESS,
                joypad_byte(old(bus)@.read(JOYPAD_ADDRESS), final(self).buttons@),
            ),
    {
        match event {
            Some(input) => match input.virtual_keycode {
                Some(keycode) => match keycode.button() {
                    Some(button) => {
                        self.set(button, input.pressed);
                    },
                    None => {},
                },
                None => {},
            },
            None => {},
        }
        self.update_byte(bus);
    }
}

} // verus!
