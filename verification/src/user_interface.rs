//! The part of the user interface that is a matter of calculation: which
//! key of the keyboard stands for which key of the keypad, which events
//! end the program, how large the window is, and where each pixel of the
//! display goes in it.
//!
//! Opening the window, filling rectangles and polling for events are the
//! host's business; it hands events in and takes squares out.
use crate::chip_eight::ChipEight;
use crate::machine::Machine;
use crate::{DISPLAY_HEIGHT, DISPLAY_SIZE, DISPLAY_WIDTH};
use vstd::prelude::*;

verus! {

/// The largest scale whose window coordinates all fit a signed 32-bit
/// integer: 64 times the scale stays below 2 to the 31.
pub const MAX_SCALE: usize = 0x01FF_FFFF;

/// A key of the keyboard. The sixteen keys that the keypad is mapped to
/// and the escape key have a variant each; `Other` stands for every other
/// key.
#[derive(Clone, Copy, Debug, PartialEq, Eq, Structural)]
pub enum Keycode {
    Num1,
    Num2,
    Num3,
    Num4,
    Q,
    W,
    E,
    R,
    A,
    S,
    D,
    F,
    Z,
    X,
    C,
    V,
    Escape,
    Other,
}

/// What the window tells the host.
#[derive(Clone, Copy, Debug, PartialEq, Eq, Structural)]
pub enum Event {
    /// The window was asked to close.
    Quit,
    /// A key went down.
    KeyDown(Keycode),
    /// A key went up.
    KeyUp(Keycode),
    /// Anything else.
    Other,
}

/// A square of the window to fill: one pixel of the display.
#[derive(Clone, Copy, Debug, PartialEq, Eq)]
pub struct Square {
    /// Distance of the left side from the left edge of the window.
    pub x: i32,
    /// Distance of the top side from the top edge of the window.
    pub y: i32,
    /// Length of a side.
    pub side: u32,
    /// Whether the pixel is on.
    pub lit: bool,
}

/// The keypad key that a key of the keyboard stands for. The four rows of
/// the keyboard block `1234`, `QWER`, `ASDF`, `ZXCV` are the four rows of
/// the keypad, `123C`, `456D`, `789E`, `A0BF`.
pub open spec fn keypad_index(keycode: Keycode) -> Option<int> {
    match keycode {
        Keycode::Num1 => Some(0x1),
        Keycode::Num2 => Some(0x2),
        Keycode::Num3 => Some(0x3),
        Keycode::Num4 => Some(0xC),
        Keycode::Q => Some(0x4),
        Keycode::W => Some(0x5),
        Keycode::E => Some(0x6),
        Keycode::R => Some(0xD),
        Keycode::A => Some(0x7),
        Keycode::S => Some(0x8),
        Keycode::D => Some(0x9),
        Keycode::F => Some(0xE),
        Keycode::Z => Some(0xA),
        Keycode::X => Some(0x0),
        Keycode::C => Some(0xB),
        Keycode::V => Some(0xF),
        Keycode::Escape => None,
        Keycode::Other => None,
    }
}

/// The state after a key of the keyboard went down (`pressed`) or up: the
/// flag of the keypad key that it stands for is set accordingly, and a key
/// that stands for none changes nothing.
pub open spec fn after_key(m: Machine, keycode: Keycode, pressed: bool) -> Machine {
    match keypad_index(keycode) {
        Some(k) => m.with_key(k, pressed),
        None => m,
    }
}

/// The state after an event: a key going down or up is recorded, and no
/// other event changes anything.
pub open spec fn after_event(m: Machine, event: Event) -> Machine {
    match event {
        Event::KeyDown(keycode) => after_key(m, keycode, true),
        Event::KeyUp(keycode) => after_key(m, keycode, false),
        _ => m,
    }
}

/// Whether an event ends the program: a request to close the window does,
/// and so does the escape key going down.
pub open spec fn quits(event: Event) -> bool {
    event == Event::Quit || event == Event::KeyDown(Keycode::Escape)
}

/// The square in which the display cell `cell` is shown at a given scale:
/// `scale` points wide and high, as many squares from the left edge as the
/// cell's column says and from the top edge as its row says. At a scale of
/// at most `MAX_SCALE` every number fits its field.
pub open spec fn square_at(scale: int, display: Seq<u8>, cell: int) -> Square {
    Square {
        x: ((cell % 64) * scale) as i32,
        y: ((cell / 64) * scale) as i32,
        side: scale as u32,
        lit: display[cell] == 1,
    }
}

/// Returns the keypad key that a key of the keyboard stands for, if any.
pub fn key_index(keycode: Keycode) -> (index: Option<usize>)
    ensures
        (match index {
            Some(k) => keypad_index(keycode) == Some(k as int) && k < 16,
            None => keypad_index(keycode) is None,
        }),
{
    match keycode {
        Keycode::Num1 => Some(0x1),
        Keycode::Num2 => Some(0x2),
        Keycode::Num3 => Some(0x3),
        Keycode::Num4 => Some(0xC),
        Keycode::Q => Some(0x4),
        Keycode::W => Some(0x5),
        Keycode::E => Some(0x6),
        Keycode::R => Some(0xD),
        Keycode::A => Some(0x7),
        Keycode::S => Some(0x8),
        Keycode::D => Some(0x9),
        Keycode::F => Some(0xE),
        Keycode::Z => Some(0xA),
        Keycode::X => Some(0x0),
        Keycode::C => Some(0xB),
        Keycode::V => Some(0xF),
        Keycode::Escape => None,
        Keycode::Other => None,
    }
}

/// The geometry of the window: every pixel of the display is shown as a
/// square of `scale` by `scale` points. `self@` is the scale.
pub struct UserInterface {
    scale: usize,
}

impl View for UserInterface {
    type V = nat;

    closed spec fn view(&self) -> nat {
        self.scale as nat
    }
}

impl UserInterface {
    /// The scale is at most `MAX_SCALE`.
    #[verifier::type_invariant]
    pub open spec fn inv(self) -> bool {
        self@ <= MAX_SCALE
    }

    /// Builds the interface for a scale of `size` points per pixel.
    pub fn new(size: usize) -> (ui: UserInterface)
        requires
            size <= MAX_SCALE,
        ensures
            ui@ == size,
    {
        UserInterface { scale: size }
    }

    /// The scale, in points per pixel.
    pub fn scale(&self) -> (scale: usize)
        ensures
            scale == self@,
            scale <= MAX_SCALE,
    {
        proof {
            use_type_invariant(self);
        }
        self.scale
    }

    /// The width and the height of the window, in points.
    pub fn window_size(&self) -> (size: (u32, u32))
        ensures
            size.0 == 64 * self@,
            size.1 == 32 * self@,
    {
        proof {
            use_type_invariant(self);
        }
        ((DISPLAY_WIDTH * self.scale) as u32, (DISPLAY_HEIGHT * self.scale) as u32)
    }

    /// Records that a key of the keyboard went down: the keypad key that it
    /// stands for is held. A key that stands for none changes nothing.
    pub fn key_press(&self, chip8: &mut ChipEight, keycode: Keycode)
        ensures
            final(chip8)@ == after_key(old(chip8)@, keycode, true),
    {
        match key_index(keycode) {
            Some(k) => {
                chip8.set_key(k, true);
            },
            None => {},
        }
    }

    /// Records that a key of the keyboard went up: the keypad key that it
    /// stands for is released. A key that stands for none changes nothing.
    pub fn key_release(&self, chip8: &mut ChipEight, keycode: Keycode)
        ensures
            final(chip8)@ == after_key(old(chip8)@, keycode, false),
    {
        match key_index(keycode) {
            Some(k) => {
                chip8.set_key(k, false);
            },
            None => {},
        }
    }

    /// Handles one event of the window: records a key that went down or up
    /// and returns whether the program is to end.
    pub fn handle_event(&self, chip8: &mut ChipEight, event: Event) -> (quit: bool)
        ensures
            quit == quits(event),
            final(chip8)@ == after_event(old(chip8)@, event),
    {
        match event {
            Event::Quit => true,
            Event::KeyDown(Keycode::Escape) => true,
            Event::KeyDown(keycode) => {
                self.key_press(chip8, keycode);
                false
            },
            Event::KeyUp(keycode) => {
                self.key_release(chip8, keycode);
                false
            },
            Event::Other => false,
        }
    }

    /// Lays the display out in the window: one square per cell, in the
    /// order of the cells, each where `square_at` puts it.
    pub fn render(&self, chip8: &ChipEight) -> (squares: Vec<Square>)
        ensures
            squares@.len() == 2048,
            forall|cell: int|
                0 <= cell < 2048 ==> #[trigger] squares@[cell] == square_at(
                    self@ as int,
                    chip8@.display,
                    cell,
                ),
    {
        proof {
            use_type_invariant(self);
        }
        let display: &[u8; 2048] = chip8.display();
        let mut squares: Vec<Square> = Vec::new();
        let mut i: usize = 0;
        while i < DISPLAY_SIZE
            invariant
                i <= DISPLAY_SIZE,
                self.scale <= MAX_SCALE,
                display@ == chip8@.display,
                squares@.len() == i,
                forall|cell: int|
                    0 <= cell < i ==> #[trigger] squares@[cell] == square_at(
                        self@ as int,
                        chip8@.display,
                        cell,
                    ),
            decreases DISPLAY_SIZE - i,
        {
            let column: usize = i % DISPLAY_WIDTH;
            let line: usize = i / DISPLAY_WIDTH;
            assert(column * self.scale <= 63 * 0x01FF_FFFF && line * self.scale <= 31
                * 0x01FF_FFFF) by (nonlinear_arith)
                requires
                    column <= 63,
                    line <= 31,
                    self.scale <= 0x01FF_FFFF,
            ;
            let x: usize = column * self.scale;
            let y: usize = line * self.scale;
            squares.push(
                Square { x: x as i32, y: y as i32, side: self.scale as u32, lit: display[i] == 1 },
            );
            i += 1;
        }
        squares
    }
}

} // verus!
