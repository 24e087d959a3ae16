//! The interpreter: the machine state and the cycle that advances it.
use crate::machine::{
    first_pressed, glyph_table, initial_machine, pixel_on, CycleReport, Cycled, Executed, Fault,
    Machine, FONT_SIZE, MAX_PROGRAM_SIZE, MEMORY_SIZE, PROGRAM_START, SPRITE_START_ADDR,
    STACK_SIZE,
};
use crate::opcodes::{decode, opcode_word, Opcodes};
use crate::random::random_byte;
use crate::{DISPLAY_HEIGHT, DISPLAY_SIZE, DISPLAY_WIDTH};
use vstd::prelude::*;

verus! {

/// A CHIP-8 machine.
///
/// The state is owned by the value and changes only through its methods;
/// `self@` is the `Machine` that it stands for, which is always well formed.
pub struct ChipEight {
    opcode: u16,
    memory: [u8; 4096],
    v_register: [u8; 16],
    i_register: u16,
    pc: u16,
    delay_timer: u8,
    sound_timer: u8,
    stack: [u16; 16],
    sp: usize,
    key: [bool; 16],
    display: [u8; 2048],
}

impl View for ChipEight {
    type V = Machine;

    closed spec fn view(&self) -> Machine {
        Machine {
            opcode: self.opcode,
            memory: self.memory@,
            v_register: self.v_register@,
            i_register: self.i_register,
            pc: self.pc,
            delay_timer: self.delay_timer,
            sound_timer: self.sound_timer,
            stack: self.stack@,
            sp: self.sp as nat,
            key: self.key@,
            display: self.display@,
        }
    }
}

impl ChipEight {
    /// Every machine stands for a well-formed state.
    #[verifier::type_invariant]
    pub open spec fn inv(self) -> bool {
        self@.wf()
    }

    /// Builds a machine in its initial state.
    pub fn new() -> (chip8: ChipEight)
        ensures
            chip8@ == initial_machine(),
            chip8@.wf(),
    {
        let mut chip8 = ChipEight {
            opcode: 0,
            memory: [0; 4096],
            v_register: [0; 16],
            i_register: 0,
            pc: 0x200,
            delay_timer: 0,
            sound_timer: 0,
            stack: [0; 16],
            sp: 0,
            key: [false; 16],
            display: [0; 2048],
        };
        let font: [u8; 80] = [
            0xF0, 0x90, 0x90, 0x90, 0xF0,
            0x20, 0x60, 0x20, 0x20, 0x70,
            0xF0, 0x10, 0xF0, 0x80, 0xF0,
            0xF0, 0x10, 0xF0, 0x10, 0xF0,
            0x90, 0x90, 0xF0, 0x10, 0x10,
            0xF0, 0x80, 0xF0, 0x10, 0xF0,
            0xF0, 0x80, 0xF0, 0x90, 0xF0,
            0xF0, 0x10, 0x20, 0x40, 0x40,
            0xF0, 0x90, 0xF0, 0x90, 0xF0,
            0xF0, 0x90, 0xF0, 0x10, 0xF0,
            0xF0, 0x90, 0xF0, 0x90, 0x90,
            0xE0, 0x90, 0xE0, 0x90, 0xE0,
            0xF0, 0x80, 0x80, 0x80, 0xF0,
            0xE0, 0x90, 0x90, 0x90, 0xE0,
            0xF0, 0x80, 0xF0, 0x80, 0xF0,
            0xF0, 0x80, 0xF0, 0x80, 0x80,
        ];
        assert(font@ =~= glyph_table());
        let ghost blank = chip8@;
        let mut x: usize = 0;
        while x < FONT_SIZE
            invariant
                x <= FONT_SIZE,
                font@ == glyph_table(),
                chip8@ == (Machine { memory: chip8@.memory, ..blank }),
                chip8@.wf(),
                forall|a: int|
                    0 <= a < 4096 ==> #[trigger] chip8@.memory[a] == if 0x50 <= a < 0x50 + x {
                        font@[a - 0x50]
                    } else {
                        0u8
                    },
            decreases FONT_SIZE - x,
        {
            chip8.memory[SPRITE_START_ADDR + x] = font[x];
            x += 1;
        }
        assert(chip8@ =~= initial_machine());
        chip8
    }
}

/// Facts about single bytes that the instructions rely on.
proof fn lemma_byte_ops(v: u8)
    by (bit_vector)
    ensures
        v & 0x01 == v % 2,
        v >> 1 == v / 2,
        v < 128 ==> v << 1 == 2 * v,
        v >= 128 ==> v << 1 == 2 * v - 256,
        v == 0 ==> v ^ 1 == 1,
        v == 1 ==> v ^ 1 == 0,
{
}

/// Returns the registers after an operation of the arithmetic family.
fn alu(registers: [u8; 16], sub: u16, x: usize, y: usize) -> (v: [u8; 16])
    requires
        x < 16,
        y < 16,
    ensures
        v@ == crate::machine::alu(registers@, sub, x as int, y as int),
{
    let mut v: [u8; 16] = registers;
    let vx: u8 = v[x];
    let vy: u8 = v[y];
    match sub {
        0x0 => {
            v[x] = vy;
        },
        0x1 => {
            v[x] = vx | vy;
        },
        0x2 => {
            v[x] = vx & vy;
        },
        0x3 => {
            v[x] = vx ^ vy;
        },
        0x4 => {
            if vx > 0xFF - vy {
                v[0xF] = 1;
            } else {
                v[0xF] = 0;
            }
            v[x] = v[x].wrapping_add(v[y]);
        },
        0x5 => {
            if vx > vy {
                v[0xF] = 1;
            } else {
                v[0xF] = 0;
            }
            v[x] = v[x].wrapping_sub(v[y]);
        },
        0x6 => {
            proof {
                lemma_byte_ops(vx);
            }
            v[0xF] = vx & 0x01;
            let current: u8 = v[x];
            proof {
                lemma_byte_ops(current);
            }
            v[x] = current >> 1;
        },
        0x7 => {
            if vy > vx {
                v[0xF] = 1;
            } else {
                v[0xF] = 0;
            }
            v[x] = v[y].wrapping_sub(v[x]);
        },
        0xE => {
            v[0xF] = vx & 0x10;
            let current: u8 = v[x];
            proof {
                lemma_byte_ops(current);
            }
            v[x] = current << 1;
        },
        _ => {},
    }
    v
}

impl ChipEight {
    /// Lets the timers tick. Returns whether the sound timer stood at one.
    fn tick(&mut self) -> (beep: bool)
        ensures
            final(self)@ == old(self)@.tick(),
            beep == old(self)@.beeps(),
    {
        proof {
            use_type_invariant(&*self);
        }
        let beep = self.sound_timer == 1;
        if self.delay_timer > 0 {
            self.delay_timer -= 1;
        }
        if self.sound_timer > 0 {
            self.sound_timer -= 1;
        }
        assert(self@ =~= old(self)@.tick());
        beep
    }

    /// Clears the display.
    fn clear_display(&mut self)
        ensures
            final(self)@ == old(self)@.clear_display(),
    {
        proof {
            use_type_invariant(&*self);
        }
        let mut i: usize = 0;
        while i < DISPLAY_SIZE
            invariant
                i <= DISPLAY_SIZE,
                self@.wf(),
                self@ == (Machine { display: self@.display, ..old(self)@ }),
                forall|k: int| 0 <= k < i ==> #[trigger] self@.display[k] == 0,
            decreases DISPLAY_SIZE - i,
        {
            self.display[i] = 0;
            i += 1;
        }
        assert(self@ =~= old(self)@.clear_display());
    }

    /// Returns from a subroutine, unless the stack is empty.
    fn return_from(&mut self) -> (fault: Option<Fault>)
        ensures
            old(self)@.return_from() == (Executed { state: final(self)@, fault }),
    {
        proof {
            use_type_invariant(&*self);
        }
        if self.sp > 0 {
            self.sp -= 1;
            self.pc = self.stack[self.sp];
            assert(self@ =~= old(self)@.return_from().state);
            None
        } else {
            Some(Fault::StackUnderflow)
        }
    }

    /// Calls the subroutine at `address`, unless the stack is full.
    fn call(&mut self, address: u16) -> (fault: Option<Fault>)
        ensures
            old(self)@.call(address) == (Executed { state: final(self)@, fault }),
    {
        proof {
            use_type_invariant(&*self);
        }
        if self.sp < STACK_SIZE {
            self.stack[self.sp] = self.pc;
            self.sp += 1;
            self.pc = address;
            assert(self@ =~= old(self)@.call(address).state);
            None
        } else {
            Some(Fault::StackOverflow)
        }
    }

    /// Moves the program counter past one instruction if the condition holds.
    fn skip_if(&mut self, condition: bool)
        requires
            old(self)@.pc <= 0xFFF0,
        ensures
            final(self)@ == old(self)@.skip_if(condition),
    {
        proof {
            use_type_invariant(&*self);
        }
        if condition {
            self.pc += 2;
        }
    }

    /// Executes an instruction of the arithmetic family on `Vx` and `Vy`.
    fn arithmetic(&mut self, sub: u16, x: usize, y: usize) -> (fault: Option<Fault>)
        requires
            x < 16,
            y < 16,
        ensures
            old(self)@.arithmetic(sub, x as int, y as int) == (Executed {
                state: final(self)@,
                fault,
            }),
    {
        proof {
            use_type_invariant(&*self);
        }
        if sub <= 0x7 || sub == 0xE {
            self.v_register = alu(self.v_register, sub, x, y);
            assert(self@ =~= old(self)@.arithmetic(sub, x as int, y as int).state);
            None
        } else {
            Some(Fault::UnknownOpcode)
        }
    }
}

impl ChipEight {
    /// Executes a key query on the key named by `Vx`.
    fn skip_pressed(&mut self, x: usize, sub: u16) -> (fault: Option<Fault>)
        requires
            x < 16,
            old(self)@.pc <= 0xFFF0,
        ensures
            old(self)@.skip_pressed(x as int, sub) == (Executed { state: final(self)@, fault }),
    {
        proof {
            use_type_invariant(&*self);
        }
        let k: usize = self.v_register[x] as usize;
        if sub != 0x1 && sub != 0xE {
            Some(Fault::UnknownOpcode)
        } else if k >= 16 {
            Some(Fault::KeyOutOfRange)
        } else if sub == 0x1 {
            let up: bool = !self.key[k];
            self.skip_if(up);
            None
        } else {
            let down: bool = self.key[k];
            self.skip_if(down);
            None
        }
    }

    /// Returns the lowest key that is held down, or 16 if none is.
    fn lowest_key_down(&self) -> (k: usize)
        ensures
            k == first_pressed(self@.key, 0),
            k <= 16,
    {
        proof {
            use_type_invariant(self);
        }
        let mut k: usize = 0;
        while k < 16
            invariant
                k <= 16,
                first_pressed(self@.key, 0) == first_pressed(self@.key, k as int),
            decreases 16 - k,
        {
            if self.key[k] {
                return k;
            }
            k += 1;
        }
        k
    }

    /// Loads the lowest key held down into `Vx`, or, with no key down, moves
    /// the program counter back onto the instruction.
    fn wait_key(&mut self, x: usize)
        requires
            x < 16,
            old(self)@.pc >= 2,
        ensures
            final(self)@ == old(self)@.wait_key(x as int),
    {
        proof {
            use_type_invariant(&*self);
        }
        let k: usize = self.lowest_key_down();
        if k < 16 {
            self.v_register[x] = k as u8;
        } else {
            self.pc -= 2;
        }
    }

    /// Stores a byte, unless the address lies beyond the memory.
    fn store_byte(&mut self, address: usize, value: u8) -> (stored: bool)
        ensures
            final(self)@ == old(self)@.with_byte(address as int, value),
            stored == (address < 4096),
    {
        proof {
            use_type_invariant(&*self);
        }
        if address < MEMORY_SIZE {
            self.memory[address] = value;
            true
        } else {
            false
        }
    }

    /// Stores the decimal digits of `Vx` at the index register.
    fn store_bcd(&mut self, x: usize) -> (fault: Option<Fault>)
        requires
            x < 16,
        ensures
            old(self)@.store_bcd(x as int) == (Executed { state: final(self)@, fault }),
    {
        proof {
            use_type_invariant(&*self);
        }
        let vx: u8 = self.v_register[x];
        let i: usize = self.i_register as usize;
        let hundreds: bool = self.store_byte(i, vx / 100);
        let tens: bool = self.store_byte(i + 1, (vx / 10) % 10);
        let ones: bool = self.store_byte(i + 2, (vx % 100) % 10);
        if hundreds && tens && ones {
            None
        } else {
            Some(Fault::MemoryOutOfRange)
        }
    }

    /// Stores `V0` to `Vx` in memory from the index register on.
    fn store_registers(&mut self, x: usize) -> (fault: Option<Fault>)
        requires
            x < 16,
        ensures
            old(self)@.store_registers(x as int) == (Executed { state: final(self)@, fault }),
    {
        proof {
            use_type_invariant(&*self);
        }
        let i: usize = self.i_register as usize;
        let mut k: usize = 0;
        while k < x + 1
            invariant
                x < 16,
                k <= x + 1,
                i == old(self)@.i_register,
                self@.wf(),
                self@ == (Machine { memory: self@.memory, ..old(self)@ }),
                forall|a: int|
                    0 <= a < 4096 ==> #[trigger] self@.memory[a] == if i <= a < i + k {
                        old(self)@.v_register[a - i]
                    } else {
                        old(self)@.memory[a]
                    },
            decreases x + 1 - k,
        {
            if i + k < MEMORY_SIZE {
                self.memory[i + k] = self.v_register[k];
            }
            k += 1;
        }
        assert(self@ =~= old(self)@.store_registers(x as int).state);
        if i + x < MEMORY_SIZE {
            None
        } else {
            Some(Fault::MemoryOutOfRange)
        }
    }

    /// Loads `V0` to `Vx` from memory from the index register on.
    fn load_registers(&mut self, x: usize) -> (fault: Option<Fault>)
        requires
            x < 16,
        ensures
            old(self)@.load_registers(x as int) == (Executed { state: final(self)@, fault }),
    {
        proof {
            use_type_invariant(&*self);
        }
        let i: usize = self.i_register as usize;
        let mut k: usize = 0;
        while k < x + 1
            invariant
                x < 16,
                k <= x + 1,
                i == old(self)@.i_register,
                self@.wf(),
                self@ == (Machine { v_register: self@.v_register, ..old(self)@ }),
                forall|r: int|
                    0 <= r < 16 ==> #[trigger] self@.v_register[r] == if r < k && i + r < 4096 {
                        old(self)@.memory[i + r]
                    } else {
                        old(self)@.v_register[r]
                    },
            decreases x + 1 - k,
        {
            if i + k < MEMORY_SIZE {
                self.v_register[k] = self.memory[i + k];
            }
            k += 1;
        }
        assert(self@ =~= old(self)@.load_registers(x as int).state);
        if i + x < MEMORY_SIZE {
            None
        } else {
            Some(Fault::MemoryOutOfRange)
        }
    }

    /// Executes an instruction of the miscellaneous family on `Vx`.
    fn misc(&mut self, x: usize, sub: u16) -> (fault: Option<Fault>)
        requires
            x < 16,
            old(self)@.pc >= 2,
        ensures
            old(self)@.misc(x as int, sub) == (Executed { state: final(self)@, fault }),
    {
        proof {
            use_type_invariant(&*self);
        }
        let vx: u8 = self.v_register[x];
        match sub {
            0x07 => {
                self.v_register[x] = self.delay_timer;
                None
            },
            0x0A => {
                self.wait_key(x);
                None
            },
            0x15 => {
                self.delay_timer = vx;
                None
            },
            0x18 => {
                self.sound_timer = vx;
                None
            },
            0x1E => {
                self.i_register = self.i_register.wrapping_add(vx as u16);
                None
            },
            0x29 => {
                self.i_register = SPRITE_START_ADDR as u16 + 5 * (vx as u16);
                None
            },
            0x33 => self.store_bcd(x),
            0x55 => self.store_registers(x),
            0x65 => self.load_registers(x),
            _ => Some(Fault::UnknownOpcode),
        }
    }
}

/// Whether the sprite has a lit pixel on `cell` that lies in a sprite row
/// before `row_end`, or in row `row_end` at a bit before `bit_end`.
spec fn covers_before(
    m: Machine,
    left: int,
    top: int,
    row_end: int,
    bit_end: int,
    cell: int,
) -> bool {
    let row = cell / 64 - top;
    let bit = cell % 64 - left;
    &&& 0 <= cell < 2048
    &&& 0 <= bit < 8
    &&& (0 <= row < row_end || (row == row_end && bit < bit_end))
    &&& pixel_on(m.sprite_row(row), bit as u8)
}

/// Whether pixel `bit` of sprite row `row` is lit, lies beyond the right
/// or bottom edge, and comes before bit `bit_end` of row `row_end`.
spec fn clipped_before(
    m: Machine,
    left: int,
    top: int,
    row_end: int,
    bit_end: int,
    row: int,
    bit: int,
) -> bool {
    &&& 0 <= bit < 8
    &&& (0 <= row < row_end || (row == row_end && bit < bit_end))
    &&& (left + bit >= 64 || top + row >= 32)
    &&& pixel_on(m.sprite_row(row), bit as u8)
}

/// A pixel that was seen to collide and a pixel that was seen to be
/// clipped, kept while drawing as evidence for the two marks.
struct Seen {
    hit: int,
    clip_row: int,
    clip_bit: int,
}

/// A draw in progress: what holds of the machine `now` and of the mark
/// `clipped` once every pixel of the sprite before bit `bit` of row `row`
/// has been drawn over the machine `before`.
///
/// Only the flag register and the display differ from `before`. A cell is
/// toggled exactly if a pixel drawn so far lies on it. The flag is 1
/// exactly if such a cell was lit, and `clipped` holds exactly if a lit
/// pixel so far fell beyond an edge; `seen` names the pixels that show it.
spec fn drawing(
    before: Machine,
    now: Machine,
    left: int,
    top: int,
    row: int,
    bit: int,
    clipped: bool,
    seen: Seen,
) -> bool {
    &&& now =~= (Machine { v_register: now.v_register, display: now.display, ..before })
    &&& now.v_register =~= before.v_register.update(0xF, now.v_register[0xF])
    &&& now.v_register[0xF] <= 1
    &&& forall|cell: int|
        0 <= cell < 2048 ==> #[trigger] now.display[cell] == if covers_before(
            before,
            left,
            top,
            row,
            bit,
            cell,
        ) {
            (1 - before.display[cell]) as u8
        } else {
            before.display[cell]
        }
    &&& now.v_register[0xF] == 1 ==> covers_before(before, left, top, row, bit, seen.hit)
        && before.display[seen.hit] == 1
    &&& forall|cell: int|
        covers_before(before, left, top, row, bit, cell) && #[trigger] before.display[cell] == 1
            ==> now.v_register[0xF] == 1
    &&& clipped ==> clipped_before(before, left, top, row, bit, seen.clip_row, seen.clip_bit)
    &&& forall|r: int, b: int|
        clipped_before(before, left, top, row, bit, r, b) && #[trigger] pixel_on(
            before.sprite_row(r),
            b as u8,
        ) ==> clipped
}

/// A finished draw is the draw of the model.
proof fn lemma_drawn(
    before: Machine,
    now: Machine,
    x: int,
    y: int,
    height: int,
    clipped: bool,
    seen: Seen,
)
    requires
        before.wf(),
        now.wf(),
        drawing(
            before,
            now,
            before.v_register[x] as int % 64,
            before.v_register[y] as int % 32,
            height,
            0,
            clipped,
            seen,
        ),
    ensures
        now == before.draw(x, y, height).state,
        clipped == before.sprite_clipped(
            before.v_register[x] as int % 64,
            before.v_register[y] as int % 32,
            height,
        ),
{
    let left = before.v_register[x] as int % 64;
    let top = before.v_register[y] as int % 32;
    assert forall|cell: int|
        covers_before(before, left, top, height, 0, cell) == before.sprite_covers(
            left,
            top,
            height,
            cell,
        ) by {}
    if now.v_register[0xF] == 1 {
        assert(before.sprite_covers(left, top, height, seen.hit));
    }
    if before.sprite_collides(left, top, height) {
        let cell = choose|cell: int| #[trigger]
            before.sprite_covers(left, top, height, cell) && before.display[cell] == 1;
        assert(covers_before(before, left, top, height, 0, cell));
    }
    if clipped {
        assert(clipped_before(before, left, top, height, 0, seen.clip_row, seen.clip_bit));
    }
    if before.sprite_clipped(left, top, height) {
        let (r, b) = choose|r: int, b: int|
            0 <= r < height && 0 <= b < 8 && (left + b >= 64 || top + r >= 32)
                && #[trigger] pixel_on(before.sprite_row(r), b as u8);
        assert(clipped_before(before, left, top, height, 0, r, b));
    }
    assert(now =~= before.draw(x, y, height).state);
}

impl ChipEight {
    /// Draws the sprite of `height` rows at the index register with its
    /// corner at (`Vx`, `Vy`), both taken modulo the size of the display.
    fn draw(&mut self, x: usize, y: usize, height: u16) -> (fault: Option<Fault>)
        requires
            x < 16,
            y < 16,
            height < 16,
        ensures
            old(self)@.draw(x as int, y as int, height as int) == (Executed {
                state: final(self)@,
                fault,
            }),
    {
        proof {
            use_type_invariant(&*self);
        }
        let ghost before = self@;
        let ghost mut seen = Seen { hit: 0, clip_row: 0, clip_bit: 0 };
        let left: usize = self.v_register[x] as usize % DISPLAY_WIDTH;
        let top: usize = self.v_register[y] as usize % DISPLAY_HEIGHT;
        let rows: usize = height as usize;
        let i: usize = self.i_register as usize;
        self.v_register[0xF] = 0;
        let mut clipped: bool = false;
        let mut row: usize = 0;
        while row < rows
            invariant
                row <= rows < 16,
                left < 64,
                top < 32,
                i == before.i_register,
                before.wf(),
                self@.wf(),
                drawing(before, self@, left as int, top as int, row as int, 0, clipped, seen),
            decreases rows - row,
        {
            let address: usize = i + row;
            let pixel: u8 = if address < MEMORY_SIZE {
                self.memory[address]
            } else {
                0
            };
            let mut bit: u8 = 0;
            while bit < 8
                invariant
                    bit <= 8,
                    row < rows < 16,
                    left < 64,
                    top < 32,
                    pixel == before.sprite_row(row as int),
                    before.wf(),
                    self@.wf(),
                    drawing(
                        before,
                        self@,
                        left as int,
                        top as int,
                        row as int,
                        bit as int,
                        clipped,
                        seen,
                    ),
                decreases 8 - bit,
            {
                if (pixel & (0x80u8 >> bit)) != 0 {
                    let column: usize = left + bit as usize;
                    let line: usize = top + row;
                    if column < DISPLAY_WIDTH && line < DISPLAY_HEIGHT {
                        let position: usize = column + line * DISPLAY_WIDTH;
                        let cell: u8 = self.display[position];
                        proof {
                            lemma_byte_ops(cell);
                        }
                        if cell == 1 {
                            self.v_register[0xF] = 1;
                            proof {
                                seen = Seen { hit: position as int, ..seen };
                            }
                        }
                        self.display[position] = cell ^ 1;
                    } else {
                        clipped = true;
                        proof {
                            seen = Seen { clip_row: row as int, clip_bit: bit as int, ..seen };
                        }
                    }
                }
                bit += 1;
            }
            row += 1;
        }
        proof {
            lemma_drawn(before, self@, x as int, y as int, height as int, clipped, seen);
        }
        if i + rows > MEMORY_SIZE {
            Some(Fault::MemoryOutOfRange)
        } else if clipped {
            Some(Fault::DisplayOutOfRange)
        } else {
            None
        }
    }
}

impl ChipEight {
    /// Executes a decoded instruction on a machine whose program counter
    /// already points past it.
    fn execute(&mut self, op: Opcodes, random: u8) -> (fault: Option<Fault>)
        requires
            op.wf(),
            2 <= old(self)@.pc <= 4096,
        ensures
            old(self)@.execute(op, random) == (Executed { state: final(self)@, fault }),
    {
        proof {
            use_type_invariant(&*self);
        }
        match op {
            Opcodes::ClearOrReturn(sub) => {
                if sub == 0x0 {
                    self.clear_display();
                    None
                } else if sub == 0xE {
                    self.return_from()
                } else {
                    Some(Fault::UnknownOpcode)
                }
            },
            Opcodes::Jump(address) => {
                self.pc = address;
                None
            },
            Opcodes::Call(address) => self.call(address),
            Opcodes::SkipEqual(x, k) => {
                let equal: bool = self.v_register[x] == k;
                self.skip_if(equal);
                None
            },
            Opcodes::SkipNotEqual(x, k) => {
                let differs: bool = self.v_register[x] != k;
                self.skip_if(differs);
                None
            },
            Opcodes::SkipEqualVy(x, y) => {
                let equal: bool = self.v_register[x] == self.v_register[y];
                self.skip_if(equal);
                None
            },
            Opcodes::LoadVxK(x, k) => {
                self.v_register[x] = k;
                None
            },
            Opcodes::AddByte(x, k) => {
                self.v_register[x] = self.v_register[x].wrapping_add(k);
                None
            },
            Opcodes::Arithmetic(sub, x, y) => self.arithmetic(sub, x, y),
            Opcodes::SkipNotEqualVy(x, y) => {
                let differs: bool = self.v_register[x] != self.v_register[y];
                self.skip_if(differs);
                None
            },
            Opcodes::LoadI(address) => {
                self.i_register = address;
                None
            },
            Opcodes::JumpOffset(address) => {
                self.pc = address + self.v_register[0] as u16;
                None
            },
            Opcodes::RandomVxByte(x, k) => {
                self.v_register[x] = random & k;
                None
            },
            Opcodes::Draw(x, y, height) => self.draw(x, y, height),
            Opcodes::SkipPressed(x, sub) => self.skip_pressed(x, sub),
            Opcodes::Misc(x, sub) => self.misc(x, sub),
            Opcodes::BadOpcode => Some(Fault::UnknownOpcode),
        }
    }

    /// Reads and decodes the instruction at the program counter.
    ///
    /// Returns `None`, and changes nothing, if the program counter leaves
    /// no room in memory for the two bytes of an instruction. Otherwise the
    /// word read becomes the current opcode and its decoded form is
    /// returned; the program counter stays where it is.
    pub fn fetch(&mut self) -> (op: Option<Opcodes>)
        ensures
            op == old(self)@.next_instruction(),
            op matches Some(o) ==> o.wf(),
            final(self)@ == (match old(self)@.next_word() {
                Some(word) => Machine { opcode: word, ..old(self)@ },
                None => old(self)@,
            }),
            final(self)@.wf(),
    {
        proof {
            use_type_invariant(&*self);
        }
        let pc: usize = self.pc as usize;
        if pc + 1 < MEMORY_SIZE {
            self.opcode = opcode_word(self.memory[pc], self.memory[pc + 1]);
            Some(decode(self.opcode))
        } else {
            None
        }
    }

    /// Finishes the cycle that `fetch` began.
    fn run(&mut self, op: Option<Opcodes>, random: u8) -> (report: CycleReport)
        requires
            op == old(self)@.next_instruction(),
            old(self)@.next_word() matches Some(word) ==> old(self)@.opcode == word,
        ensures
            old(self)@.cycle(random) == (Cycled { state: final(self)@, report }),
    {
        proof {
            use_type_invariant(&*self);
        }
        let fault: Option<Fault> = match op {
            Some(op) => {
                self.pc += 2;
                assert(self@ =~= old(self)@.fetched(old(self)@.opcode));
                self.execute(op, random)
            },
            None => Some(Fault::ProgramCounterOutOfRange),
        };
        let beep: bool = self.tick();
        CycleReport { beep, fault }
    }

    /// Runs one cycle with `random` as the byte that a randomize
    /// instruction would draw: fetch, decode, execute, tick the timers.
    ///
    /// The new state and the report are exactly those of `Machine::cycle`.
    pub fn cycle_with(&mut self, random: u8) -> (report: CycleReport)
        ensures
            old(self)@.cycle(random) == (Cycled { state: final(self)@, report }),
            final(self)@.wf(),
    {
        let op: Option<Opcodes> = self.fetch();
        let report: CycleReport = self.run(op, random);
        proof {
            use_type_invariant(&*self);
        }
        report
    }

    /// Runs one cycle: fetch, decode, execute, tick the timers.
    ///
    /// A random byte is drawn only if the instruction is a randomize
    /// instruction; the cycle is then that of `Machine::cycle` for the byte
    /// drawn, whatever it is. Every other cycle is fully determined by the
    /// state.
    pub fn emulation_cycle(&mut self) -> (report: CycleReport)
        ensures
            exists|random: u8|
                #[trigger] old(self)@.cycle(random) == (Cycled { state: final(self)@, report }),
            !old(self)@.draws_random() ==> old(self)@.cycle(0) == (Cycled {
                state: final(self)@,
                report,
            }),
            final(self)@.wf(),
    {
        let op: Option<Opcodes> = self.fetch();
        let random: u8 = match op {
            Some(Opcodes::RandomVxByte(_, _)) => random_byte(),
            _ => 0,
        };
        let report: CycleReport = self.run(op, random);
        proof {
            use_type_invariant(&*self);
            assert(old(self)@.cycle(random) == (Cycled { state: self@, report }));
        }
        report
    }
}

/// Why a program was not loaded.
#[derive(Clone, Copy, Debug, PartialEq, Eq, Structural)]
pub enum LoadError {
    /// The program is longer than `MAX_PROGRAM_SIZE` bytes.
    ProgramTooLarge,
}

impl ChipEight {
    /// Copies a program into memory, its first byte at `PROGRAM_START`.
    ///
    /// A program of more than `MAX_PROGRAM_SIZE` bytes is refused and the
    /// machine stays as it is. Otherwise only the bytes under the program
    /// change.
    pub fn load_rom(&mut self, rom: &[u8]) -> (result: Result<(), LoadError>)
        ensures
            rom@.len() <= MAX_PROGRAM_SIZE ==> result == Ok::<(), LoadError>(()) && final(self)@
                == old(self)@.loaded(rom@),
            rom@.len() > MAX_PROGRAM_SIZE ==> result == Err::<(), LoadError>(
                LoadError::ProgramTooLarge,
            ) && final(self)@ == old(self)@,
            final(self)@.wf(),
    {
        proof {
            use_type_invariant(&*self);
        }
        let size: usize = rom.len();
        if size > MAX_PROGRAM_SIZE {
            return Err(LoadError::ProgramTooLarge);
        }
        let mut i: usize = 0;
        while i < size
            invariant
                i <= size <= MAX_PROGRAM_SIZE,
                size == rom@.len(),
                self@.wf(),
                self@ == (Machine { memory: self@.memory, ..old(self)@ }),
                forall|a: int|
                    0 <= a < 4096 ==> #[trigger] self@.memory[a] == if 0x200 <= a < 0x200 + i {
                        rom@[a - 0x200]
                    } else {
                        old(self)@.memory[a]
                    },
            decreases size - i,
        {
            self.memory[i + PROGRAM_START] = rom[i];
            i += 1;
        }
        assert(self@ =~= old(self)@.loaded(rom@));
        Ok(())
    }

    /// Records that the key `index` went down (`true`) or up (`false`).
    ///
    /// Returns whether there is such a key; an index beyond 15 changes
    /// nothing.
    pub fn set_key(&mut self, index: usize, pressed: bool) -> (known: bool)
        ensures
            known == (index < 16),
            final(self)@ == old(self)@.with_key(index as int, pressed),
            final(self)@.wf(),
    {
        proof {
            use_type_invariant(&*self);
        }
        if index < 16 {
            self.key[index] = pressed;
            true
        } else {
            false
        }
    }

    /// The instruction word fetched last.
    pub fn opcode(&self) -> (opcode: u16)
        ensures
            opcode == self@.opcode,
    {
        self.opcode
    }

    /// The program counter.
    pub fn pc(&self) -> (pc: u16)
        ensures
            pc == self@.pc,
    {
        self.pc
    }

    /// The index register.
    pub fn i_register(&self) -> (i: u16)
        ensures
            i == self@.i_register,
    {
        self.i_register
    }

    /// The delay timer.
    pub fn delay_timer(&self) -> (timer: u8)
        ensures
            timer == self@.delay_timer,
    {
        self.delay_timer
    }

    /// The sound timer.
    pub fn sound_timer(&self) -> (timer: u8)
        ensures
            timer == self@.sound_timer,
    {
        self.sound_timer
    }

    /// The number of return addresses on the stack.
    pub fn sp(&self) -> (sp: usize)
        ensures
            sp == self@.sp,
            sp <= 16,
    {
        proof {
            use_type_invariant(self);
        }
        self.sp
    }

    /// The memory.
    pub fn memory(&self) -> (memory: &[u8; 4096])
        ensures
            memory@ == self@.memory,
    {
        &self.memory
    }

    /// The general registers.
    pub fn v_register(&self) -> (registers: &[u8; 16])
        ensures
            registers@ == self@.v_register,
    {
        &self.v_register
    }

    /// The call stack.
    pub fn stack(&self) -> (stack: &[u16; 16])
        ensures
            stack@ == self@.stack,
    {
        &self.stack
    }

    /// The key flags.
    pub fn key(&self) -> (key: &[bool; 16])
        ensures
            key@ == self@.key,
    {
        &self.key
    }

    /// The display buffer: one cell per pixel, row after row, each 0 or 1.
    pub fn display(&self) -> (display: &[u8; 2048])
        ensures
            display@ == self@.display,
            forall|k: int| 0 <= k < 2048 ==> #[trigger] display@[k] <= 1,
    {
        proof {
            use_type_invariant(self);
        }
        &self.display
    }
}

} // verus!
