//! Laws of the machine: what holds of every state, every instruction word
//! and every program, proved from the model.
use crate::machine::{alu, first_pressed, glyph_table, initial_machine, Fault, Machine};
use crate::opcodes::{decode_spec, is_recognized, word_of, Opcodes};
use crate::user_interface::{keypad_index, Keycode};
use vstd::prelude::*;

verus! {

/// A recognized instruction word decodes to an operation other than
/// `BadOpcode`, an unrecognized one to `BadOpcode`, and the operands of
/// every decoded operation lie in their ranges.
pub proof fn law_decode_classifies(opcode: u16)
    ensures
        is_recognized(opcode) <==> !(decode_spec(opcode) is BadOpcode),
        decode_spec(opcode).wf(),
{
}

/// Decoding is a function of the two bytes of the instruction: the same
/// bytes always decode to the same operation.
pub proof fn law_decode_deterministic(high: u8, low: u8, other_high: u8, other_low: u8)
    requires
        high == other_high,
        low == other_low,
    ensures
        decode_spec(word_of(high, low)) == decode_spec(word_of(other_high, other_low)),
{
}

/// The instruction that a machine executes next depends on nothing but the
/// program counter and the two bytes that it points at: two machines that
/// agree on them fetch the same word and decode the same operation,
/// whatever their registers, timers, keys and display hold.
pub proof fn law_fetch_reads_two_bytes(m: Machine, other: Machine)
    requires
        m.pc == other.pc,
        m.pc + 1 < 4096 ==> m.memory[m.pc as int] == other.memory[m.pc as int],
        m.pc + 1 < 4096 ==> m.memory[m.pc + 1] == other.memory[m.pc + 1],
    ensures
        m.next_word() == other.next_word(),
        m.next_instruction() == other.next_instruction(),
{
}

/// The initial state is well formed. Its memory holds the glyph table from
/// address 0x50 on and zero everywhere else; the program counter is 0x200;
/// registers, index register, stack, stack pointer, timers, key flags and
/// display cells are all zero.
pub proof fn law_initial_state()
    ensures
        initial_machine().wf(),
        glyph_table().len() == 80,
        initial_machine().memory.subrange(0x50, 0xA0) == glyph_table(),
        forall|a: int|
            0 <= a < 0x50 || 0xA0 <= a < 4096 ==> #[trigger] initial_machine().memory[a] == 0,
        initial_machine().pc == 0x200,
        initial_machine().i_register == 0,
        initial_machine().sp == 0,
        initial_machine().delay_timer == 0,
        initial_machine().sound_timer == 0,
        forall|k: int| 0 <= k < 16 ==> #[trigger] initial_machine().v_register[k] == 0,
        forall|k: int| 0 <= k < 16 ==> #[trigger] initial_machine().stack[k] == 0,
        forall|k: int| 0 <= k < 16 ==> !#[trigger] initial_machine().key[k],
        forall|k: int| 0 <= k < 2048 ==> #[trigger] initial_machine().display[k] == 0,
{
    assert(initial_machine().memory.subrange(0x50, 0xA0) =~= glyph_table());
}

/// Loading a program of at most 3584 bytes puts its byte `i` at address
/// 512 + `i`, leaves every other byte of the memory as it was, the first
/// 512 among them, and changes nothing but the memory.
pub proof fn law_load_places_program(m: Machine, rom: Seq<u8>)
    requires
        m.wf(),
        rom.len() <= 3584,
    ensures
        m.loaded(rom).wf(),
        m.loaded(rom) == (Machine { memory: m.loaded(rom).memory, ..m }),
        forall|i: int| 0 <= i < rom.len() ==> #[trigger] m.loaded(rom).memory[512 + i] == rom[i],
        forall|a: int| 0 <= a < 512 ==> #[trigger] m.loaded(rom).memory[a] == m.memory[a],
        forall|a: int|
            512 + rom.len() <= a < 4096 ==> #[trigger] m.loaded(rom).memory[a] == m.memory[a],
{
}

/// A cycle that executes the clear instruction leaves every cell of the
/// display at 0, whatever the display held, and meets no fault.
pub proof fn law_clear_blanks_display(m: Machine, random: u8)
    requires
        m.wf(),
        m.next_instruction() == Some(Opcodes::ClearOrReturn(0)),
    ensures
        forall|k: int| 0 <= k < 2048 ==> #[trigger] m.cycle(random).state.display[k] == 0,
        m.cycle(random).report.fault is None,
{
}

/// Only the clear and the draw instructions change the display: every
/// other cycle leaves each cell as it was.
pub proof fn law_display_changed_by_clear_and_draw_only(m: Machine, random: u8)
    requires
        m.wf(),
        !(m.next_instruction() matches Some(Opcodes::ClearOrReturn(0))),
        !(m.next_instruction() matches Some(Opcodes::Draw(_, _, _))),
    ensures
        m.cycle(random).state.display == m.display,
{
}

/// Where the flag register is neither operand, the flagged operations of
/// the arithmetic family are the textbook ones. Add with carry leaves the
/// sum modulo 256 in `Vx` and 1 in the flag exactly if the sum exceeds
/// 255. The subtractions leave the difference modulo 256 in `Vx` and 1 in
/// the flag exactly if the minuend is the greater. The shifts halve `Vx`,
/// or double it modulo 256, and flag its low bit, or its bit 4 in place.
pub proof fn law_carry_and_borrow(v: Seq<u8>, x: int, y: int)
    requires
        v.len() == 16,
        0 <= x < 15,
        0 <= y < 15,
    ensures
        alu(v, 0x4, x, y) == v.update(0xF, if v[x] + v[y] > 255 { 1u8 } else { 0u8 }).update(
            x,
            ((v[x] + v[y]) % 256) as u8,
        ),
        alu(v, 0x5, x, y) == v.update(0xF, if v[x] > v[y] { 1u8 } else { 0u8 }).update(
            x,
            ((v[x] - v[y]) % 256) as u8,
        ),
        alu(v, 0x7, x, y) == v.update(0xF, if v[y] > v[x] { 1u8 } else { 0u8 }).update(
            x,
            ((v[y] - v[x]) % 256) as u8,
        ),
        alu(v, 0x6, x, y) == v.update(0xF, v[x] % 2).update(x, v[x] / 2),
        alu(v, 0xE, x, y) == v.update(0xF, v[x] & 0x10).update(x, ((2 * v[x]) % 256) as u8),
{
}

/// Drawing the same sprite twice at the same place restores the display.
/// The second draw sets the flag register to 1 if the sprite touched a
/// cell that was off before the first draw, and to 0 if it touched none.
///
/// The coordinate registers must not be the flag register, which the first
/// draw overwrites.
pub proof fn law_draw_twice_restores_display(m: Machine, x: int, y: int, height: int)
    requires
        m.wf(),
        0 <= x < 15,
        0 <= y < 15,
        0 <= height < 16,
    ensures
        ({
            let left = m.v_register[x] as int % 64;
            let top = m.v_register[y] as int % 32;
            let twice = m.draw(x, y, height).state.draw(x, y, height).state;
            &&& twice.display == m.display
            &&& twice.v_register[0xF] == 1 <==> exists|cell: int| #[trigger]
                m.sprite_covers(left, top, height, cell) && m.display[cell] == 0
        }),
{
    let left = m.v_register[x] as int % 64;
    let top = m.v_register[y] as int % 32;
    let once = m.draw(x, y, height).state;
    let twice = once.draw(x, y, height).state;
    assert forall|cell: int| #![auto]
        once.sprite_covers(left, top, height, cell) == m.sprite_covers(
            left,
            top,
            height,
            cell,
        ) by {}
    assert(twice.display =~= m.display);
    if once.sprite_collides(left, top, height) {
        let cell = choose|cell: int| #[trigger]
            once.sprite_covers(left, top, height, cell) && once.display[cell] == 1;
        assert(m.sprite_covers(left, top, height, cell) && m.display[cell] == 0);
    }
    if exists|cell: int| #[trigger]
        m.sprite_covers(left, top, height, cell) && m.display[cell] == 0 {
        let cell = choose|cell: int| #[trigger]
            m.sprite_covers(left, top, height, cell) && m.display[cell] == 0;
        assert(once.sprite_covers(left, top, height, cell) && once.display[cell] == 1);
    }
}

/// `first_pressed` finds the lowest key held down at or after `from`: the
/// key it names is down and no key between `from` and it is; it is 16
/// exactly if no key from `from` on is down.
pub proof fn law_first_pressed_is_lowest(key: Seq<bool>, from: int)
    requires
        key.len() == 16,
        0 <= from <= 16,
    ensures
        from <= first_pressed(key, from) <= 16,
        first_pressed(key, from) < 16 ==> key[first_pressed(key, from)],
        forall|j: int| from <= j < first_pressed(key, from) ==> !#[trigger] key[j],
    decreases 16 - from,
{
    if from < 16 && !key[from] {
        law_first_pressed_is_lowest(key, from + 1);
    }
}

/// A cycle that executes the key wait for register `x`: with no key held
/// down, the program counter ends where it began and no register changes,
/// so the same instruction executes again; with a key held down, `Vx`
/// becomes the lowest such key and the program counter moves on by 2.
pub proof fn law_key_wait(m: Machine, x: usize, random: u8)
    requires
        m.wf(),
        m.next_instruction() == Some(Opcodes::Misc(x, 0x0A)),
    ensures
        m.cycle(random).report.fault is None,
        (forall|k: int| 0 <= k < 16 ==> !m.key[k]) ==> ({
            &&& m.cycle(random).state.pc == m.pc
            &&& m.cycle(random).state.v_register == m.v_register
        }),
        forall|k: int|
            0 <= k < 16 && #[trigger] m.key[k] && (forall|j: int| 0 <= j < k ==> !m.key[j]) ==> ({
                &&& m.cycle(random).state.pc == m.pc + 2
                &&& m.cycle(random).state.v_register == m.v_register.update(x as int, k as u8)
            }),
{
    law_first_pressed_is_lowest(m.key, 0);
    let first = first_pressed(m.key, 0);
    if forall|k: int| 0 <= k < 16 ==> !m.key[k] {
        if first < 16 {
            assert(m.key[first]);
        }
        assert(first == 16);
    }
    assert forall|k: int|
        0 <= k < 16 && #[trigger] m.key[k] && (forall|j: int|
            0 <= j < k ==> !m.key[j]) implies first == k by {
        if first < k {
            assert(!m.key[first]);
        }
    }
}

/// No cycle changes a key flag: the keys are the host's to set.
pub proof fn law_cycle_keeps_keys(m: Machine, random: u8)
    requires
        m.wf(),
    ensures
        m.cycle(random).state.key == m.key,
{
}

/// The sound timer over one cycle. Unless the instruction executed is the
/// one that sets the sound timer, the cycle beeps exactly if the timer
/// stood at 1 and decrements a timer that is not 0: from 1 it beeps once
/// and leaves 0; from 0 it is silent and leaves 0.
pub proof fn law_sound_timer_decay(m: Machine, random: u8)
    requires
        m.wf(),
        !(m.next_instruction() matches Some(Opcodes::Misc(_, 0x18))),
    ensures
        m.cycle(random).report.beep == (m.sound_timer == 1),
        m.sound_timer > 0 ==> m.cycle(random).state.sound_timer == m.sound_timer - 1,
        m.sound_timer == 0 ==> m.cycle(random).state.sound_timer == 0,
{
}

/// The sound timer over a cycle that sets it from `Vx`: the cycle beeps
/// exactly if `Vx` is 1, and leaves the timer one below `Vx`, or at 0.
pub proof fn law_sound_timer_set(m: Machine, x: usize, random: u8)
    requires
        m.wf(),
        m.next_instruction() == Some(Opcodes::Misc(x, 0x18)),
    ensures
        ({
            let vx = m.v_register[x as int];
            &&& m.cycle(random).report.beep == (vx == 1)
            &&& vx > 0 ==> m.cycle(random).state.sound_timer == vx - 1
            &&& vx == 0 ==> m.cycle(random).state.sound_timer == 0
        }),
{
}

/// The delay timer over one cycle: unless the instruction executed is the
/// one that sets it, a timer that is not 0 loses 1 and a timer at 0 stays.
pub proof fn law_delay_timer_decay(m: Machine, random: u8)
    requires
        m.wf(),
        !(m.next_instruction() matches Some(Opcodes::Misc(_, 0x15))),
    ensures
        m.delay_timer > 0 ==> m.cycle(random).state.delay_timer == m.delay_timer - 1,
        m.delay_timer == 0 ==> m.cycle(random).state.delay_timer == 0,
{
}

/// The three bytes that the decimal-digits instruction stores are the
/// decimal digits of `Vx`, the hundreds first, and no other byte changes.
pub proof fn law_bcd_digits(m: Machine, x: int)
    requires
        m.wf(),
        0 <= x < 16,
        m.i_register + 2 < 4096,
    ensures
        m.store_bcd(x).fault is None,
        ({
            let i = m.i_register as int;
            let memory = m.store_bcd(x).state.memory;
            &&& memory[i] <= 9
            &&& memory[i + 1] <= 9
            &&& memory[i + 2] <= 9
            &&& 100 * memory[i] + 10 * memory[i + 1] + memory[i + 2] == m.v_register[x]
            &&& forall|a: int| 0 <= a < i || i + 2 < a < 4096 ==> #[trigger] memory[a] == m.memory[a]
        }),
{
}

/// Only a randomize instruction reads the random byte: every other cycle
/// is the same for all bytes.
pub proof fn law_random_byte_read_by_randomize_only(m: Machine, random: u8, other: u8)
    requires
        !m.draws_random(),
    ensures
        m.cycle(random) == m.cycle(other),
{
}

/// A cycle that meets `ProgramCounterOutOfRange` or `UnknownOpcode` changes
/// nothing but what every cycle changes: the timers tick and, where an
/// instruction was fetched, the opcode is recorded and the program counter
/// points past it.
pub proof fn law_unrecognized_changes_nothing(m: Machine, random: u8)
    requires
        m.wf(),
    ensures
        (match m.next_word() {
            None => {
                &&& m.cycle(random).report.fault == Some(Fault::ProgramCounterOutOfRange)
                &&& m.cycle(random).state == m.tick()
            },
            Some(word) => !is_recognized(word) ==> {
                &&& m.cycle(random).report.fault == Some(Fault::UnknownOpcode)
                &&& m.cycle(random).state == m.fetched(word).tick()
            },
        }),
{
}

/// Every cycle leads from a well-formed state to a well-formed state: the
/// arrays keep their sizes, the stack pointer stays within the stack, and
/// every cell of the display stays 0 or 1.
pub proof fn law_cycle_preserves_wf(m: Machine, random: u8)
    requires
        m.wf(),
    ensures
        m.cycle(random).state.wf(),
{
}

/// The keyboard block maps one to one onto the keypad: no two keys of the
/// keyboard stand for the same key of the keypad, and every key of the
/// keypad has a key of the keyboard that stands for it.
pub proof fn law_keypad_one_to_one(a: Keycode, b: Keycode, k: int)
    requires
        0 <= k < 16,
    ensures
        keypad_index(a) is Some && keypad_index(a) == keypad_index(b) ==> a == b,
        keypad_index(a) matches Some(index) ==> 0 <= index < 16,
        exists|c: Keycode| keypad_index(c) == Some(k),
{
    let c = if k == 0x0 {
        Keycode::X
    } else if k == 0x1 {
        Keycode::Num1
    } else if k == 0x2 {
        Keycode::Num2
    } else if k == 0x3 {
        Keycode::Num3
    } else if k == 0x4 {
        Keycode::Q
    } else if k == 0x5 {
        Keycode::W
    } else if k == 0x6 {
        Keycode::E
    } else if k == 0x7 {
        Keycode::A
    } else if k == 0x8 {
        Keycode::S
    } else if k == 0x9 {
        Keycode::D
    } else if k == 0xA {
        Keycode::Z
    } else if k == 0xB {
        Keycode::C
    } else if k == 0xC {
        Keycode::Num4
    } else if k == 0xD {
        Keycode::R
    } else if k == 0xE {
        Keycode::F
    } else {
        Keycode::V
    };
    assert(keypad_index(c) == Some(k));
}

} // verus!
