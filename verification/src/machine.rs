//! The mathematical model of the machine and of one cycle.
//!
//! A `Machine` is the state of the interpreter as plain mathematical values.
//! The functions of this module say, instruction by instruction, which state
//! follows from which; the executable interpreter is proved against them.
use crate::opcodes::{decode_spec, is_arithmetic_sub, word_of, Opcodes};
use vstd::prelude::*;

verus! {

/// Size of the memory in bytes.
pub const MEMORY_SIZE: usize = 4096;

/// Address at which a loaded program starts, and the initial program counter.
pub const PROGRAM_START: usize = 0x200;

/// Largest program that fits between `PROGRAM_START` and the end of memory.
pub const MAX_PROGRAM_SIZE: usize = 3584;

/// Address of the first byte of the glyph table.
pub const SPRITE_START_ADDR: usize = 0x50;

/// Number of bytes of the glyph table: sixteen glyphs of five rows each.
pub const FONT_SIZE: usize = 80;

/// Depth of the call stack.
pub const STACK_SIZE: usize = 16;

/// A condition met while running one cycle that kept the cycle from doing
/// all of its work. None of them stops the machine.
#[derive(Clone, Copy, Debug, PartialEq, Eq, Structural)]
pub enum Fault {
    /// The program counter leaves no room for a two-byte instruction.
    ProgramCounterOutOfRange,
    /// The instruction word matches no known pattern.
    UnknownOpcode,
    /// A call found the stack full.
    StackOverflow,
    /// A return found the stack empty.
    StackUnderflow,
    /// An instruction addressed memory beyond its last byte.
    MemoryOutOfRange,
    /// A sprite had a lit pixel beyond the right or bottom edge.
    DisplayOutOfRange,
    /// A key query named a key beyond the sixteenth.
    KeyOutOfRange,
}

/// What one cycle tells the host besides the new state.
#[derive(Clone, Copy, Debug, PartialEq, Eq)]
pub struct CycleReport {
    /// Whether the sound timer stood at one before it was decremented.
    pub beep: bool,
    /// The fault met in this cycle, if any.
    pub fault: Option<Fault>,
}

/// The state of the machine.
#[verifier::ext_equal]
pub struct Machine {
    /// The instruction word fetched last.
    pub opcode: u16,
    /// The memory, `MEMORY_SIZE` bytes.
    pub memory: Seq<u8>,
    /// The sixteen general registers; the last one is the flag register.
    pub v_register: Seq<u8>,
    /// The index register.
    pub i_register: u16,
    /// The program counter.
    pub pc: u16,
    /// The delay timer.
    pub delay_timer: u8,
    /// The sound timer.
    pub sound_timer: u8,
    /// The call stack, `STACK_SIZE` return addresses.
    pub stack: Seq<u16>,
    /// The number of return addresses on the stack.
    pub sp: nat,
    /// The sixteen key flags, `true` while a key is held down.
    pub key: Seq<bool>,
    /// The display, `DISPLAY_SIZE` cells, row after row, each 0 or 1.
    pub display: Seq<u8>,
}

/// The state after an instruction, and the fault it met.
#[verifier::ext_equal]
pub struct Executed {
    pub state: Machine,
    pub fault: Option<Fault>,
}

/// The state after a cycle, and its report.
#[verifier::ext_equal]
pub struct Cycled {
    pub state: Machine,
    pub report: CycleReport,
}

/// The built-in glyphs for the digits 0 to F, five rows each, the high bit
/// of a row being its leftmost pixel.
pub open spec fn glyph_table() -> Seq<u8> {
    seq![
        0xF0u8, 0x90u8, 0x90u8, 0x90u8, 0xF0u8,
        0x20u8, 0x60u8, 0x20u8, 0x20u8, 0x70u8,
        0xF0u8, 0x10u8, 0xF0u8, 0x80u8, 0xF0u8,
        0xF0u8, 0x10u8, 0xF0u8, 0x10u8, 0xF0u8,
        0x90u8, 0x90u8, 0xF0u8, 0x10u8, 0x10u8,
        0xF0u8, 0x80u8, 0xF0u8, 0x10u8, 0xF0u8,
        0xF0u8, 0x80u8, 0xF0u8, 0x90u8, 0xF0u8,
        0xF0u8, 0x10u8, 0x20u8, 0x40u8, 0x40u8,
        0xF0u8, 0x90u8, 0xF0u8, 0x90u8, 0xF0u8,
        0xF0u8, 0x90u8, 0xF0u8, 0x10u8, 0xF0u8,
        0xF0u8, 0x90u8, 0xF0u8, 0x90u8, 0x90u8,
        0xE0u8, 0x90u8, 0xE0u8, 0x90u8, 0xE0u8,
        0xF0u8, 0x80u8, 0x80u8, 0x80u8, 0xF0u8,
        0xE0u8, 0x90u8, 0x90u8, 0x90u8, 0xE0u8,
        0xF0u8, 0x80u8, 0xF0u8, 0x80u8, 0xF0u8,
        0xF0u8, 0x80u8, 0xF0u8, 0x80u8, 0x80u8,
    ]
}

/// The state of a machine that was just switched on: the glyph table in
/// memory, the program counter at `PROGRAM_START`, everything else zero.
pub open spec fn initial_machine() -> Machine {
    Machine {
        opcode: 0,
        memory: Seq::new(
            4096,
            |a: int|
                if 0x50 <= a < 0x50 + 80 {
                    glyph_table()[a - 0x50]
                } else {
                    0u8
                },
        ),
        v_register: Seq::new(16, |k: int| 0u8),
        i_register: 0,
        pc: 0x200,
        delay_timer: 0,
        sound_timer: 0,
        stack: Seq::new(16, |k: int| 0u16),
        sp: 0,
        key: Seq::new(16, |k: int| false),
        display: Seq::new(2048, |k: int| 0u8),
    }
}

/// Whether drawing lights the pixel `bit` of a sprite row, the leftmost
/// pixel being bit 0 of the row and bit 7 of the byte.
pub open spec fn pixel_on(byte: u8, bit: u8) -> bool {
    byte & (0x80u8 >> bit) != 0
}

/// The lowest index at or after `from` whose key is held down, or 16.
pub open spec fn first_pressed(key: Seq<bool>, from: int) -> int
    decreases 16 - from,
{
    if from < 0 || from >= 16 {
        16
    } else if key[from] {
        from
    } else {
        first_pressed(key, from + 1)
    }
}

/// The sum of two bytes, modulo 256.
pub open spec fn wrapped_sum(a: u8, b: u8) -> u8 {
    ((a + b) % 256) as u8
}

/// The difference of two bytes, modulo 256.
pub open spec fn wrapped_difference(a: u8, b: u8) -> u8 {
    ((a - b) % 256) as u8
}

/// The registers with `value` in the flag register.
pub open spec fn flagged(v: Seq<u8>, value: u8) -> Seq<u8> {
    v.update(0xF, value)
}

/// The registers after an operation of the arithmetic family on `Vx` and
/// `Vy`. An operation that sets the flag register writes the flag first
/// and then computes from the registers as they stand, so the flag
/// register may be one of its own operands.
///
/// Sub-codes: 0 assign, 1 or, 2 and, 3 exclusive or, 4 add with carry,
/// 5 subtract with borrow, 6 shift right, 7 subtract reversed, E shift
/// left. The carry is 1 if the sum exceeds 255. The borrow flags are 1 if
/// the minuend is the greater. Shift right flags the low bit of `Vx`;
/// shift left flags bit 4 of `Vx`, in place, so the flag is 0 or 16 and
/// is not the bit that the shift drops.
pub open spec fn alu(v: Seq<u8>, sub: u16, x: int, y: int) -> Seq<u8> {
    let vx = v[x];
    let vy = v[y];
    if sub == 0x0 {
        v.update(x, vy)
    } else if sub == 0x1 {
        v.update(x, vx | vy)
    } else if sub == 0x2 {
        v.update(x, vx & vy)
    } else if sub == 0x3 {
        v.update(x, vx ^ vy)
    } else if sub == 0x4 {
        let f = flagged(v, if vx + vy > 255 { 1u8 } else { 0u8 });
        f.update(x, wrapped_sum(f[x], f[y]))
    } else if sub == 0x5 {
        let f = flagged(v, if vx > vy { 1u8 } else { 0u8 });
        f.update(x, wrapped_difference(f[x], f[y]))
    } else if sub == 0x6 {
        let f = flagged(v, vx % 2);
        f.update(x, f[x] / 2)
    } else if sub == 0x7 {
        let f = flagged(v, if vy > vx { 1u8 } else { 0u8 });
        f.update(x, wrapped_difference(f[y], f[x]))
    } else if sub == 0xE {
        let f = flagged(v, vx & 0x10);
        f.update(x, wrapped_sum(f[x], f[x]))
    } else {
        v
    }
}

/// An instruction that did all of its work.
pub open spec fn done(state: Machine) -> Executed {
    Executed { state, fault: None }
}

/// An instruction that met a fault.
pub open spec fn faulted(state: Machine, fault: Fault) -> Executed {
    Executed { state, fault: Some(fault) }
}

impl Machine {
    /// The invariant of the state: every array has its size, the stack
    /// pointer counts at most `STACK_SIZE` entries, every cell is 0 or 1.
    pub open spec fn wf(self) -> bool {
        &&& self.memory.len() == 4096
        &&& self.v_register.len() == 16
        &&& self.stack.len() == 16
        &&& self.key.len() == 16
        &&& self.display.len() == 2048
        &&& self.sp <= 16
        &&& forall|k: int| 0 <= k < 2048 ==> #[trigger] self.display[k] <= 1
    }

    /// The same state with another program counter.
    pub open spec fn with_pc(self, pc: u16) -> Machine {
        Machine { pc, ..self }
    }

    /// The same state with `value` in register `x`.
    pub open spec fn with_register(self, x: int, value: u8) -> Machine {
        Machine { v_register: self.v_register.update(x, value), ..self }
    }

    /// The same state with another index register.
    pub open spec fn with_index(self, i_register: u16) -> Machine {
        Machine { i_register, ..self }
    }

    /// The same state with `value` at `address`, or the same state if the
    /// address lies beyond the memory.
    pub open spec fn with_byte(self, address: int, value: u8) -> Machine {
        if 0 <= address < 4096 {
            Machine { memory: self.memory.update(address, value), ..self }
        } else {
            self
        }
    }

    /// The same state with the flag of key `index` set to `pressed`, or
    /// the same state if there is no such key.
    pub open spec fn with_key(self, index: int, pressed: bool) -> Machine {
        if 0 <= index < 16 {
            Machine { key: self.key.update(index, pressed), ..self }
        } else {
            self
        }
    }

    /// The same state with the program counter moved past one instruction
    /// if the condition holds.
    pub open spec fn skip_if(self, condition: bool) -> Machine {
        if condition {
            self.with_pc((self.pc + 2) as u16)
        } else {
            self
        }
    }

    /// The instruction word at the program counter, if both of its bytes
    /// lie in memory.
    pub open spec fn next_word(self) -> Option<u16> {
        if self.pc + 1 < 4096 {
            Some(word_of(self.memory[self.pc as int], self.memory[self.pc + 1]))
        } else {
            None
        }
    }

    /// The decoded instruction at the program counter, if there is one.
    pub open spec fn next_instruction(self) -> Option<Opcodes> {
        match self.next_word() {
            Some(word) => Some(decode_spec(word)),
            None => None,
        }
    }

    /// Clear: every cell of the display becomes 0.
    pub open spec fn clear_display(self) -> Machine {
        Machine { display: Seq::new(2048, |k: int| 0u8), ..self }
    }

    /// Return: pops the last return address into the program counter. On
    /// an empty stack nothing changes and the fault is `StackUnderflow`.
    pub open spec fn return_from(self) -> Executed {
        if 0 < self.sp <= 16 {
            done(Machine { sp: (self.sp - 1) as nat, pc: self.stack[self.sp - 1], ..self })
        } else {
            faulted(self, Fault::StackUnderflow)
        }
    }

    /// Call: pushes the program counter and jumps to `address`. On a full
    /// stack nothing changes and the fault is `StackOverflow`.
    pub open spec fn call(self, address: u16) -> Executed {
        if self.sp < 16 {
            done(
                Machine {
                    stack: self.stack.update(self.sp as int, self.pc),
                    sp: self.sp + 1,
                    pc: address,
                    ..self
                },
            )
        } else {
            faulted(self, Fault::StackOverflow)
        }
    }

    /// The arithmetic family: the registers become `alu(..)`; a sub-code
    /// that names no operation changes nothing (`UnknownOpcode`).
    pub open spec fn arithmetic(self, sub: u16, x: int, y: int) -> Executed {
        if is_arithmetic_sub(sub as int) {
            done(Machine { v_register: alu(self.v_register, sub, x, y), ..self })
        } else {
            faulted(self, Fault::UnknownOpcode)
        }
    }

    /// The byte of sprite row `row`: the byte at the index register plus
    /// `row`, or 0 if that address lies beyond the memory.
    pub open spec fn sprite_row(self, row: int) -> u8 {
        if 0 <= self.i_register + row < 4096 {
            self.memory[self.i_register + row]
        } else {
            0
        }
    }

    /// Whether the sprite of `height` rows drawn with its top left corner
    /// at column `left` and row `top` has a lit pixel on the display cell
    /// `cell`. Pixels beyond the right or bottom edge fall on no cell.
    pub open spec fn sprite_covers(self, left: int, top: int, height: int, cell: int) -> bool {
        let row = cell / 64 - top;
        let bit = cell % 64 - left;
        &&& 0 <= cell < 2048
        &&& 0 <= row < height
        &&& 0 <= bit < 8
        &&& pixel_on(self.sprite_row(row), bit as u8)
    }

    /// Whether the sprite has a lit pixel beyond the right or bottom edge.
    pub open spec fn sprite_clipped(self, left: int, top: int, height: int) -> bool {
        exists|row: int, bit: int|
            0 <= row < height && 0 <= bit < 8 && (left + bit >= 64 || top + row >= 32)
                && #[trigger] pixel_on(self.sprite_row(row), bit as u8)
    }

    /// Whether the sprite has a lit pixel on a cell that is lit.
    pub open spec fn sprite_collides(self, left: int, top: int, height: int) -> bool {
        exists|cell: int| #[trigger]
            self.sprite_covers(left, top, height, cell) && self.display[cell] == 1
    }

    /// Draw: the flag register becomes 1 if the sprite collides and 0 if
    /// not; every cell under a lit pixel of the sprite is toggled. The
    /// corner is (`Vx` mod 64, `Vy` mod 32), read before the flag is reset.
    /// Rows beyond the memory are not drawn (`MemoryOutOfRange`); pixels
    /// beyond the right or bottom edge are not drawn (`DisplayOutOfRange`);
    /// where both happen the fault is `MemoryOutOfRange`.
    pub open spec fn draw(self, x: int, y: int, height: int) -> Executed {
        let left = self.v_register[x] as int % 64;
        let top = self.v_register[y] as int % 32;
        let state = Machine {
            v_register: self.v_register.update(
                0xF,
                if self.sprite_collides(left, top, height) {
                    1u8
                } else {
                    0u8
                },
            ),
            display: Seq::new(
                2048,
                |cell: int|
                    if self.sprite_covers(left, top, height, cell) {
                        (1 - self.display[cell]) as u8
                    } else {
                        self.display[cell]
                    },
            ),
            ..self
        };
        if self.i_register + height > 4096 {
            faulted(state, Fault::MemoryOutOfRange)
        } else if self.sprite_clipped(left, top, height) {
            faulted(state, Fault::DisplayOutOfRange)
        } else {
            done(state)
        }
    }

    /// Key query: skips the next instruction if the key named by `Vx` is
    /// up (sub-code 0x1) or down (sub-code 0xE). A value of `Vx` beyond 15
    /// names no key: nothing changes and the fault is `KeyOutOfRange`.
    pub open spec fn skip_pressed(self, x: int, sub: u16) -> Executed {
        let k = self.v_register[x] as int;
        if sub != 0x1 && sub != 0xE {
            faulted(self, Fault::UnknownOpcode)
        } else if k >= 16 {
            faulted(self, Fault::KeyOutOfRange)
        } else if sub == 0x1 {
            done(self.skip_if(!self.key[k]))
        } else {
            done(self.skip_if(self.key[k]))
        }
    }

    /// Key wait: loads the lowest key held down into `Vx`; with no key
    /// down, moves the program counter back onto this instruction.
    pub open spec fn wait_key(self, x: int) -> Machine {
        let k = first_pressed(self.key, 0);
        if k < 16 {
            self.with_register(x, k as u8)
        } else {
            self.with_pc((self.pc - 2) as u16)
        }
    }

    /// Decimal digits: stores hundreds, tens and ones of `Vx` at the index
    /// register and the two addresses after it. A digit whose address lies
    /// beyond the memory is not stored (`MemoryOutOfRange`).
    pub open spec fn store_bcd(self, x: int) -> Executed {
        let vx = self.v_register[x];
        let i = self.i_register as int;
        let state = self.with_byte(i, vx / 100).with_byte(i + 1, (vx / 10) % 10).with_byte(
            i + 2,
            vx % 10,
        );
        if i + 2 >= 4096 {
            faulted(state, Fault::MemoryOutOfRange)
        } else {
            done(state)
        }
    }

    /// Block store: copies `V0` to `Vx` to memory from the index register
    /// on. A register whose address lies beyond the memory is not stored
    /// (`MemoryOutOfRange`). The index register keeps its value.
    pub open spec fn store_registers(self, x: int) -> Executed {
        let i = self.i_register as int;
        let state = Machine {
            memory: Seq::new(
                4096,
                |a: int|
                    if i <= a <= i + x {
                        self.v_register[a - i]
                    } else {
                        self.memory[a]
                    },
            ),
            ..self
        };
        if i + x >= 4096 {
            faulted(state, Fault::MemoryOutOfRange)
        } else {
            done(state)
        }
    }

    /// Block load: copies memory from the index register on into `V0` to
    /// `Vx`. A register whose address lies beyond the memory keeps its
    /// value (`MemoryOutOfRange`).
    pub open spec fn load_registers(self, x: int) -> Executed {
        let i = self.i_register as int;
        let state = Machine {
            v_register: Seq::new(
                16,
                |k: int|
                    if k <= x && i + k < 4096 {
                        self.memory[i + k]
                    } else {
                        self.v_register[k]
                    },
            ),
            ..self
        };
        if i + x >= 4096 {
            faulted(state, Fault::MemoryOutOfRange)
        } else {
            done(state)
        }
    }

    /// The miscellaneous family, selected by the low byte of the word.
    pub open spec fn misc(self, x: int, sub: u16) -> Executed {
        let vx = self.v_register[x];
        if sub == 0x07 {
            done(self.with_register(x, self.delay_timer))
        } else if sub == 0x0A {
            done(self.wait_key(x))
        } else if sub == 0x15 {
            done(Machine { delay_timer: vx, ..self })
        } else if sub == 0x18 {
            done(Machine { sound_timer: vx, ..self })
        } else if sub == 0x1E {
            done(self.with_index(((self.i_register + vx) % 0x10000) as u16))
        } else if sub == 0x29 {
            done(self.with_index((0x50 + 5 * vx) as u16))
        } else if sub == 0x33 {
            self.store_bcd(x)
        } else if sub == 0x55 {
            self.store_registers(x)
        } else if sub == 0x65 {
            self.load_registers(x)
        } else {
            faulted(self, Fault::UnknownOpcode)
        }
    }

    /// The effect of one decoded instruction on a state whose program
    /// counter already points past it. `random` is the byte that a
    /// randomize instruction draws; no other instruction reads it.
    pub open spec fn execute(self, op: Opcodes, random: u8) -> Executed {
        match op {
            Opcodes::ClearOrReturn(sub) => {
                if sub == 0x0 {
                    done(self.clear_display())
                } else if sub == 0xE {
                    self.return_from()
                } else {
                    faulted(self, Fault::UnknownOpcode)
                }
            },
            Opcodes::Jump(address) => done(self.with_pc(address)),
            Opcodes::Call(address) => self.call(address),
            Opcodes::SkipEqual(x, k) => done(self.skip_if(self.v_register[x as int] == k)),
            Opcodes::SkipNotEqual(x, k) => done(self.skip_if(self.v_register[x as int] != k)),
            Opcodes::SkipEqualVy(x, y) => done(
                self.skip_if(self.v_register[x as int] == self.v_register[y as int]),
            ),
            Opcodes::LoadVxK(x, k) => done(self.with_register(x as int, k)),
            Opcodes::AddByte(x, k) => done(
                self.with_register(x as int, wrapped_sum(self.v_register[x as int], k)),
            ),
            Opcodes::Arithmetic(sub, x, y) => self.arithmetic(sub, x as int, y as int),
            Opcodes::SkipNotEqualVy(x, y) => done(
                self.skip_if(self.v_register[x as int] != self.v_register[y as int]),
            ),
            Opcodes::LoadI(address) => done(self.with_index(address)),
            Opcodes::JumpOffset(address) => done(
                self.with_pc((address + self.v_register[0]) as u16),
            ),
            Opcodes::RandomVxByte(x, k) => done(self.with_register(x as int, random & k)),
            Opcodes::Draw(x, y, height) => self.draw(x as int, y as int, height as int),
            Opcodes::SkipPressed(x, sub) => self.skip_pressed(x as int, sub),
            Opcodes::Misc(x, sub) => self.misc(x as int, sub),
            Opcodes::BadOpcode => faulted(self, Fault::UnknownOpcode),
        }
    }

    /// Whether the sound timer asks for a beep: it stands at one.
    pub open spec fn beeps(self) -> bool {
        self.sound_timer == 1
    }

    /// The same state with each timer that is not zero decremented by one.
    pub open spec fn tick(self) -> Machine {
        Machine {
            delay_timer: if self.delay_timer > 0 {
                (self.delay_timer - 1) as u8
            } else {
                0u8
            },
            sound_timer: if self.sound_timer > 0 {
                (self.sound_timer - 1) as u8
            } else {
                0u8
            },
            ..self
        }
    }

    /// The state in which the instruction at the program counter executes:
    /// the word is recorded and the program counter points past it.
    pub open spec fn fetched(self, word: u16) -> Machine {
        Machine { opcode: word, pc: (self.pc + 2) as u16, ..self }
    }

    /// One cycle: fetch, decode, execute, then let the timers tick.
    ///
    /// If the program counter leaves no room for an instruction, nothing is
    /// executed and the fault is `ProgramCounterOutOfRange`. The timers
    /// tick in every cycle, and the beep is that of the sound timer as the
    /// instruction left it.
    pub open spec fn cycle(self, random: u8) -> Cycled {
        let executed = match self.next_word() {
            Some(word) => self.fetched(word).execute(decode_spec(word), random),
            None => faulted(self, Fault::ProgramCounterOutOfRange),
        };
        Cycled {
            state: executed.state.tick(),
            report: CycleReport { beep: executed.state.beeps(), fault: executed.fault },
        }
    }

    /// Whether the next cycle draws a random byte.
    pub open spec fn draws_random(self) -> bool {
        self.next_instruction() matches Some(op) && op is RandomVxByte
    }

    /// The state after loading a program: its bytes stand in memory from
    /// `PROGRAM_START` on and nothing else has changed.
    pub open spec fn loaded(self, rom: Seq<u8>) -> Machine {
        Machine {
            memory: Seq::new(
                4096,
                |a: int|
                    if 0x200 <= a < 0x200 + rom.len() {
                        rom[a - 0x200]
                    } else {
                        self.memory[a]
                    },
            ),
            ..self
        }
    }
}

} // verus!
