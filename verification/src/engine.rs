//! The execution engine: decoding, the instructions that reach across the
//! machine, and the fetch-decode-execute cycle.

use num::cast::FromPrimitive;
use vstd::prelude::*;
use vstd::slice::slice_subrange;
use crate::keypad::Keypad;
use crate::machine::{
    address_operand, alu, byte_operand, cycle, decimal_digits, execute, family, fourth_nibble,
    key_of, only_key, read_into, second_nibble, sprite_at, third_nibble, well_formed, Cycle,
    Machine, Outcome, Status, Transition,
};
use crate::memory::{fetch_instruction, instruction_at, overlaid, HALT, MEMORY_SIZE};
use crate::opcodes::{
    add_instruction, add_no_overflow_instruction, call_instruction, jump_instruction,
    jump_v0_instruction, rand_instruction_from, random_byte, return_instruction, shl_instruction,
    shr_instruction, sub_instruction, Chip8EmulatorError, Stack, FLAG,
};
use crate::screen::{collides, drawn, Screen};
use crate::timers::{DelayTimer, SoundTimer, Timer};

verus! {

/// The machine that the parts make up together.
pub open spec fn snapshot(
    registers: [u8; 16],
    register_i: u16,
    screen: Screen,
    keypad: Keypad,
    memory: [u8; 4096],
    stack: Stack<u16>,
    program_counter: usize,
    delay_timer: DelayTimer,
    sound_timer: SoundTimer,
) -> Machine {
    Machine {
        registers: registers@,
        index: register_i,
        pixels: screen@,
        keys: keypad@,
        memory: memory@,
        stack: stack@,
        pc: program_counter as int,
        delay: delay_timer.value(),
        sound: sound_timer.value(),
    }
}

/// The parts always make up a machine of the right shape.
pub proof fn lemma_snapshot_shape(
    registers: [u8; 16],
    register_i: u16,
    screen: Screen,
    keypad: Keypad,
    memory: [u8; 4096],
    stack: Stack<u16>,
    program_counter: usize,
    delay_timer: DelayTimer,
    sound_timer: SoundTimer,
)
    ensures
        well_formed(
            snapshot(
                registers,
                register_i,
                screen,
                keypad,
                memory,
                stack,
                program_counter,
                delay_timer,
                sound_timer,
            ),
        ),
{
    screen.lemma_is_grid();
    keypad.lemma_view_len();
}

/// Splits an instruction into its four nibbles, the highest first.
pub fn nibbles(instruction: u16) -> (parts: (u8, u8, u8, u8))
    ensures
        parts.0 == family(instruction),
        parts.1 == second_nibble(instruction),
        parts.2 == third_nibble(instruction),
        parts.3 == fourth_nibble(instruction),
        parts.0 < 16,
        parts.1 < 16,
        parts.2 < 16,
        parts.3 < 16,
{
    assert((instruction & 0xF000) >> 12 == instruction / 0x1000) by (bit_vector);
    assert((instruction & 0x0F00) >> 8 == (instruction / 0x100) % 16) by (bit_vector);
    assert((instruction & 0x00F0) >> 4 == (instruction / 0x10) % 16) by (bit_vector);
    assert(instruction & 0x000F == instruction % 16) by (bit_vector);
    (
        ((instruction & 0xF000) >> 12) as u8,
        ((instruction & 0x0F00) >> 8) as u8,
        ((instruction & 0x00F0) >> 4) as u8,
        (instruction & 0x000F) as u8,
    )
}

/// The address operand of an instruction: its last three nibbles.
pub fn operand_address(instruction: u16) -> (address: u16)
    ensures
        address == address_operand(instruction),
{
    assert(instruction & 0x0FFF == instruction % 0x1000) by (bit_vector);
    instruction & 0x0FFF
}

/// The byte operand of an instruction: its last two nibbles.
pub fn operand_byte(instruction: u16) -> (byte: u8)
    ensures
        byte == byte_operand(instruction),
{
    assert(instruction & 0x00FF == instruction % 0x100) by (bit_vector);
    (instruction & 0x00FF) as u8
}

/// The key that an input byte stands for, if any.
pub fn map_key(byte: u8) -> (key: Option<u8>)
    ensures
        key == key_of(byte),
        key matches Some(code) ==> code < 16,
{
    let key: Option<u8> = match byte {
        0x31 => Some(0x1),  // 1
        0x32 => Some(0x2),  // 2
        0x33 => Some(0x3),  // 3
        0x34 => Some(0xC),  // 4
        0x71 => Some(0x4),  // q
        0x77 => Some(0x5),  // w
        0x65 => Some(0x6),  // e
        0x72 => Some(0xD),  // r
        0x61 => Some(0x7),  // a
        0x73 => Some(0x8),  // s
        0x64 => Some(0x9),  // d
        0x66 => Some(0xE),  // f
        0x7A => Some(0xA),  // z
        0x78 => Some(0x0),  // x
        0x63 => Some(0xB),  // c
        0x76 => Some(0xF),  // v
        _ => None,
    };
    key
}

/// Moves the program counter past the next instruction where `condition`
/// holds.
pub fn skip_if(pc: &mut usize, condition: bool)
    requires
        *old(pc) + 2 <= usize::MAX,
    ensures
        *final(pc) == (if condition {
            *old(pc) + 2
        } else {
            *old(pc) as int
        }),
{
    if condition {
        *pc += 2;
    }
}

/// Carries out the operation `operation` of the arithmetic family on the
/// registers `x` and `y`, and tells whether there is such an operation.
pub fn alu_instruction(registers: &mut [u8; 16], x: usize, y: usize, operation: u8) -> (valid: bool)
    requires
        x < 16,
        y < 16,
    ensures
        match alu(old(registers)@, x as int, y as int, operation as int) {
            Some(after) => valid && final(registers)@ == after,
            None => !valid && final(registers)@ == old(registers)@,
        },
{
    let vx: u8 = registers[x];
    let vy: u8 = registers[y];
    match operation {
        0x0 => {
            registers[x] = vy;
        },
        0x1 => {
            registers[x] = vx | vy;
        },
        0x2 => {
            registers[x] = vx & vy;
        },
        0x3 => {
            registers[x] = vx ^ vy;
        },
        0x4 => {
            add_instruction(registers, x, vy);
        },
        0x5 => {
            sub_instruction(registers, x, vy);
        },
        0x6 => {
            shr_instruction(registers, x);
        },
        0x7 => {
            let result: u8 = vy.wrapping_sub(vx);
            let is_borrow: bool = vy < vx;
            registers[FLAG] = if is_borrow { 0 } else { 1 };
            registers[x] = result;
        },
        0xE => {
            shl_instruction(registers, x);
        },
        _ => {
            return false;
        },
    }
    true
}

/// Presses `key` alone on the keypad and puts its code in register `x`.
pub fn latch_key(registers: &mut [u8; 16], keypad: &mut Keypad, x: usize, key: u8)
    requires
        x < 16,
        key < 16,
    ensures
        final(registers)@ == old(registers)@.update(x as int, key),
        final(keypad)@ == only_key(key),
{
    registers[x] = key;
    proof {
        keypad.lemma_view_len();
    }
    keypad.press_key(key as usize);
    let mut i: u8 = 0;
    while i < 16
        invariant
            i <= 16,
            key < 16,
            keypad@.len() == 16,
            keypad@[key as int],
            forall|k: int| 0 <= k < i && k != key ==> !keypad@[k],
        decreases 16 - i,
    {
        if i != key {
            keypad.release_key(i as usize);
        }
        i += 1;
    }
}

/// Writes the hundreds, tens and units of `value` to `memory` at `address`
/// and the two bytes after it.
pub fn store_decimal(memory: &mut [u8; 4096], address: usize, value: u8)
    requires
        address + 2 < MEMORY_SIZE,
    ensures
        final(memory)@ == overlaid(old(memory)@, address as int, decimal_digits(value)),
{
    memory[address] = value / 100;
    memory[address + 1] = value / 10 % 10;
    memory[address + 2] = value % 10;
}

/// Writes the registers `0..=last` to `memory` from `address` on.
pub fn store_registers(memory: &mut [u8; 4096], address: usize, registers: &[u8; 16], last: usize)
    requires
        last < 16,
        address + last < MEMORY_SIZE,
    ensures
        final(memory)@ == overlaid(old(memory)@, address as int, registers@.take(last + 1)),
{
    let mut i: usize = 0;
    while i <= last
        invariant
            i <= last + 1,
            last < 16,
            address + last < MEMORY_SIZE,
            memory@ == overlaid(old(memory)@, address as int, registers@.take(i as int)),
        decreases last + 1 - i,
    {
        memory[address + i] = registers[i];
        i += 1;
    }
}

/// Reads the registers `0..=last` from `memory`, from `address` on.
pub fn load_registers(registers: &mut [u8; 16], memory: &[u8; 4096], address: usize, last: usize)
    requires
        last < 16,
        address + last < MEMORY_SIZE,
    ensures
        final(registers)@ == read_into(old(registers)@, memory@, address as int, last + 1),
{
    let mut index: usize = address;
    let mut i: usize = 0;
    while i <= last
        invariant
            i <= last + 1,
            last < 16,
            address + last < MEMORY_SIZE,
            index == address + i,
            registers@ == read_into(old(registers)@, memory@, address as int, i as int),
        decreases last + 1 - i,
    {
        let current_value: u8 = memory[index];
        registers[i] = current_value;
        index += 1;
        i += 1;
    }
}

/// The same number in sixteen bits, through `num`'s
/// `FromPrimitive::from_u8` for `u16`. Every `u8` fits in a `u16`, so the
/// conversion always gives `Some`.
#[verifier::external_body]
fn widen(value: u8) -> (wide: Option<u16>)
    ensures
        wide == Some(value as u16),
{
    FromPrimitive::from_u8(value)
}

/// Carries out the draw instruction: draws the sprite of `rows` rows found
/// in `memory` at `address` with its top left pixel at `(Vx, Vy)`, and
/// leaves in the flag register whether a pixel was turned off. A sprite
/// that reaches past the end of memory is not drawn.
pub fn draw_instruction(
    registers: &mut [u8; 16],
    screen: &mut Screen,
    memory: &[u8; 4096],
    address: u16,
    x: usize,
    y: usize,
    rows: u8,
) -> (result: Result<(), Chip8EmulatorError>)
    requires
        x < 16,
        y < 16,
        rows < 16,
    ensures
        rows > 0 && address + rows > MEMORY_SIZE ==> {
            &&& result == Err::<(), Chip8EmulatorError>(Chip8EmulatorError::MemoryOutOfBounds)
            &&& final(registers)@ == old(registers)@
            &&& final(screen)@ == old(screen)@
        },
        !(rows > 0 && address + rows > MEMORY_SIZE) ==> {
            let sprite = sprite_at(memory@, address as int, rows as int);
            let vx = old(registers)@[x as int] as int;
            let vy = old(registers)@[y as int] as int;
            &&& result == Ok::<(), Chip8EmulatorError>(())
            &&& final(screen)@ == drawn(old(screen)@, sprite, vx, vy)
            &&& final(registers)@ == old(registers)@.update(
                FLAG as int,
                if collides(old(screen)@, sprite, vx, vy) {
                    1u8
                } else {
                    0u8
                },
            )
        },
{
    let start: usize = address as usize;
    let count: usize = rows as usize;
    if count > 0 && start + count > MEMORY_SIZE {
        return Err(Chip8EmulatorError::MemoryOutOfBounds);
    }
    let x_coordinate: u8 = registers[x];
    let y_coordinate: u8 = registers[y];
    let sprite: &[u8] = if count == 0 {
        slice_subrange(memory.as_slice(), 0, 0)
    } else {
        slice_subrange(memory.as_slice(), start, start + count)
    };
    assert(sprite@ =~= sprite_at(memory@, address as int, rows as int));
    let collision = screen.draw_sprite(sprite, x_coordinate, y_coordinate);
    registers[FLAG] = if collision { 1 } else { 0 };
    Ok(())
}

/// Executes `instruction` on the machine that the parts make up, with
/// `random` as the byte that the random instruction masks and `input` as
/// the byte, if any, that the input source delivered for the key-wait
/// instruction. Says in the result what the caller has to do next; where
/// the instruction fails, every part is left as it was.
pub fn execute_instruction_with(
    registers: &mut [u8; 16],
    register_i: &mut u16,
    screen: &mut Screen,
    keypad: &mut Keypad,
    memory: &mut [u8; 4096],
    stack: &mut Stack<u16>,
    instruction: u16,
    program_counter: &mut usize,
    delay_timer: &mut DelayTimer,
    sound_timer: &mut SoundTimer,
    random: u8,
    input: Option<u8>,
) -> (result: Result<Outcome, Chip8EmulatorError>)
    requires
        *old(program_counter) + 2 <= usize::MAX,
    ensures
        (Transition {
            machine: snapshot(
                *final(registers),
                *final(register_i),
                *final(screen),
                *final(keypad),
                *final(memory),
                *final(stack),
                *final(program_counter),
                *final(delay_timer),
                *final(sound_timer),
            ),
            result,
        }) == execute(
            snapshot(
                *old(registers),
                *old(register_i),
                *old(screen),
                *old(keypad),
                *old(memory),
                *old(stack),
                *old(program_counter),
                *old(delay_timer),
                *old(sound_timer),
            ),
            instruction,
            random,
            input,
        ),
{
    let parts = nibbles(instruction);
    let x: usize = parts.1 as usize;
    let y: usize = parts.2 as usize;
    let nn: u8 = operand_byte(instruction);
    let nnn: u16 = operand_address(instruction);
    let invalid: Result<Outcome, Chip8EmulatorError> = Err(
        Chip8EmulatorError::InvalidInstruction(instruction),
    );
    match parts.0 {
        0x0 => {
            if instruction == 0x00E0 {
                screen.clear_screen();
                Ok(Outcome::Next)
            } else if instruction == 0x00EE {
                match return_instruction(program_counter, stack) {
                    Ok(()) => Ok(Outcome::Jumped),
                    Err(error) => Err(error),
                }
            } else {
                invalid
            }
        },
        0x1 => {
            jump_instruction(program_counter, nnn);
            Ok(Outcome::Jumped)
        },
        0x2 => {
            match call_instruction(program_counter, nnn, stack) {
                Ok(()) => Ok(Outcome::Jumped),
                Err(error) => Err(error),
            }
        },
        0x3 => {
            skip_if(program_counter, registers[x] == nn);
            Ok(Outcome::Next)
        },
        0x4 => {
            skip_if(program_counter, registers[x] != nn);
            Ok(Outcome::Next)
        },
        0x5 => {
            skip_if(program_counter, registers[x] == registers[y]);
            Ok(Outcome::Next)
        },
        0x6 => {
            registers[x] = nn;
            Ok(Outcome::Next)
        },
        0x7 => {
            add_no_overflow_instruction(registers, x, nn);
            Ok(Outcome::Next)
        },
        0x8 => {
            if alu_instruction(registers, x, y, parts.3) {
                Ok(Outcome::Next)
            } else {
                invalid
            }
        },
        0x9 => {
            skip_if(program_counter, registers[x] != registers[y]);
            Ok(Outcome::Next)
        },
        0xA => {
            *register_i = nnn;
            Ok(Outcome::Next)
        },
        0xB => {
            jump_v0_instruction(*registers, program_counter, nnn);
            Ok(Outcome::Jumped)
        },
        0xC => {
            rand_instruction_from(registers, x, nn, random);
            Ok(Outcome::Next)
        },
        0xD => {
            match draw_instruction(registers, screen, memory, *register_i, x, y, parts.3) {
                Ok(()) => Ok(Outcome::Draw),
                Err(error) => Err(error),
            }
        },
        0xE => {
            let pressed = keypad.is_pressed(registers[x] as usize);
            if nn == 0x9E {
                skip_if(program_counter, pressed);
                Ok(Outcome::Next)
            } else if nn == 0xA1 {
                skip_if(program_counter, !pressed);
                Ok(Outcome::Next)
            } else {
                invalid
            }
        },
        _ => {
            let address: usize = *register_i as usize;
            match nn {
                0x07 => {
                    registers[x] = delay_timer.get_timer();
                    Ok(Outcome::Next)
                },
                0x0A => {
                    let key = match input {
                        Some(byte) => map_key(byte),
                        None => None,
                    };
                    match key {
                        Some(code) => {
                            latch_key(registers, keypad, x, code);
                            Ok(Outcome::Next)
                        },
                        None => Ok(Outcome::Blocked),
                    }
                },
                0x15 => {
                    delay_timer.set_timer(registers[x]);
                    Ok(Outcome::Next)
                },
                0x18 => {
                    sound_timer.set_timer(registers[x]);
                    Ok(Outcome::Next)
                },
                0x1E => {
                    let offset: u16 = registers[x] as u16;
                    *register_i = register_i.wrapping_add(offset);
                    Ok(Outcome::Next)
                },
                0x29 => {
                    let glyph: u16 = widen(registers[x]).unwrap();
                    *register_i = glyph * 5;
                    Ok(Outcome::Next)
                },
                0x33 => {
                    if address + 2 >= MEMORY_SIZE {
                        Err(Chip8EmulatorError::MemoryOutOfBounds)
                    } else {
                        store_decimal(memory, address, registers[x]);
                        Ok(Outcome::Next)
                    }
                },
                0x55 => {
                    if address + x >= MEMORY_SIZE {
                        Err(Chip8EmulatorError::MemoryOutOfBounds)
                    } else {
                        store_registers(memory, address, registers, x);
                        Ok(Outcome::Next)
                    }
                },
                0x65 => {
                    if address + x >= MEMORY_SIZE {
                        Err(Chip8EmulatorError::MemoryOutOfBounds)
                    } else {
                        load_registers(registers, memory, address, x);
                        Ok(Outcome::Next)
                    }
                },
                _ => invalid,
            }
        },
    }
}

/// Executes `instruction` as `execute_instruction_with` does, drawing the
/// byte for the random instruction from the thread's random generator. The
/// machine ends as it would for some value of that byte.
pub fn execute_instruction(
    registers: &mut [u8; 16],
    register_i: &mut u16,
    screen: &mut Screen,
    keypad: &mut Keypad,
    memory: &mut [u8; 4096],
    stack: &mut Stack<u16>,
    instruction: u16,
    program_counter: &mut usize,
    delay_timer: &mut DelayTimer,
    sound_timer: &mut SoundTimer,
    input: Option<u8>,
) -> (result: Result<Outcome, Chip8EmulatorError>)
    requires
        *old(program_counter) + 2 <= usize::MAX,
    ensures
        exists|random: u8|
            (Transition {
                machine: snapshot(
                    *final(registers),
                    *final(register_i),
                    *final(screen),
                    *final(keypad),
                    *final(memory),
                    *final(stack),
                    *final(program_counter),
                    *final(delay_timer),
                    *final(sound_timer),
                ),
                result,
            }) == #[trigger] execute(
                snapshot(
                    *old(registers),
                    *old(register_i),
                    *old(screen),
                    *old(keypad),
                    *old(memory),
                    *old(stack),
                    *old(program_counter),
                    *old(delay_timer),
                    *old(sound_timer),
                ),
                instruction,
                random,
                input,
            ),
{
    let random: u8 = if nibbles(instruction).0 == 0xC {
        random_byte()
    } else {
        0
    };
    execute_instruction_with(
        registers,
        register_i,
        screen,
        keypad,
        memory,
        stack,
        instruction,
        program_counter,
        delay_timer,
        sound_timer,
        random,
        input,
    )
}

/// Runs one cycle of the machine that the parts make up: fetches the
/// instruction at the program counter, executes it with `random` and
/// `input` as `execute_instruction_with` does, and moves the program
/// counter on. A machine that has stopped is left as it is.
pub fn step_with(
    registers: &mut [u8; 16],
    register_i: &mut u16,
    screen: &mut Screen,
    keypad: &mut Keypad,
    memory: &mut [u8; 4096],
    stack: &mut Stack<u16>,
    program_counter: &mut usize,
    delay_timer: &mut DelayTimer,
    sound_timer: &mut SoundTimer,
    random: u8,
    input: Option<u8>,
) -> (result: Result<Status, Chip8EmulatorError>)
    ensures
        (Cycle {
            machine: snapshot(
                *final(registers),
                *final(register_i),
                *final(screen),
                *final(keypad),
                *final(memory),
                *final(stack),
                *final(program_counter),
                *final(delay_timer),
                *final(sound_timer),
            ),
            result,
        }) == cycle(
            snapshot(
                *old(registers),
                *old(register_i),
                *old(screen),
                *old(keypad),
                *old(memory),
                *old(stack),
                *old(program_counter),
                *old(delay_timer),
                *old(sound_timer),
            ),
            random,
            input,
        ),
{
    if *program_counter >= MEMORY_SIZE {
        return Ok(Status::Halted);
    }
    if *program_counter + 1 >= MEMORY_SIZE {
        return Err(Chip8EmulatorError::MemoryOutOfBounds);
    }
    let current_instruction: u16 = fetch_instruction(memory, *program_counter);
    if current_instruction == HALT {
        return Ok(Status::Halted);
    }
    match execute_instruction_with(
        registers,
        register_i,
        screen,
        keypad,
        memory,
        stack,
        current_instruction,
        program_counter,
        delay_timer,
        sound_timer,
        random,
        input,
    ) {
        Ok(outcome) => {
            match outcome {
                Outcome::Next | Outcome::Draw => {
                    *program_counter += 2;
                },
                Outcome::Jumped | Outcome::Blocked => {},
            }
            Ok(Status::Executed(outcome))
        },
        Err(error) => Err(error),
    }
}

/// Whether the cycle that starts at `program_counter` executes the random
/// instruction.
pub fn awaits_random(memory: &[u8; 4096], program_counter: usize) -> (wanted: bool)
    ensures
        wanted == (program_counter + 1 < MEMORY_SIZE && family(
            instruction_at(memory@, program_counter as int),
        ) == 0xC),
{
    if program_counter >= MEMORY_SIZE - 1 {
        false
    } else {
        nibbles(fetch_instruction(memory, program_counter)).0 == 0xC
    }
}

/// Runs one cycle as `step_with` does, drawing the byte for the random
/// instruction from the thread's random generator. The machine ends as it
/// would for some value of that byte.
pub fn step(
    registers: &mut [u8; 16],
    register_i: &mut u16,
    screen: &mut Screen,
    keypad: &mut Keypad,
    memory: &mut [u8; 4096],
    stack: &mut Stack<u16>,
    program_counter: &mut usize,
    delay_timer: &mut DelayTimer,
    sound_timer: &mut SoundTimer,
    input: Option<u8>,
) -> (result: Result<Status, Chip8EmulatorError>)
    ensures
        exists|random: u8|
            (Cycle {
                machine: snapshot(
                    *final(registers),
                    *final(register_i),
                    *final(screen),
                    *final(keypad),
                    *final(memory),
                    *final(stack),
                    *final(program_counter),
                    *final(delay_timer),
                    *final(sound_timer),
                ),
                result,
            }) == #[trigger] cycle(
                snapshot(
                    *old(registers),
                    *old(register_i),
                    *old(screen),
                    *old(keypad),
                    *old(memory),
                    *old(stack),
                    *old(program_counter),
                    *old(delay_timer),
                    *old(sound_timer),
                ),
                random,
                input,
            ),
{
    let random: u8 = if awaits_random(memory, *program_counter) {
        random_byte()
    } else {
        0
    };
    step_with(
        registers,
        register_i,
        screen,
        keypad,
        memory,
        stack,
        program_counter,
        delay_timer,
        sound_timer,
        random,
        input,
    )
}

} // verus!
