//! The machine as a mathematical value, and what one instruction does to it.

use vstd::prelude::*;
use crate::memory::{instruction_at, overlaid, HALT, MEMORY_SIZE};
use crate::opcodes::{
    added, flagged, no_borrow, return_address, shifted_left, shifted_right, subtracted,
    wrapped_difference, wrapped_sum, Chip8EmulatorError, FLAG, STACK_CAPACITY,
};
use crate::screen::{blank_grid, collides, drawn, is_grid, PixelState};

verus! {

/// The whole state of the machine.
#[verifier::ext_equal]
pub struct Machine {
    /// The sixteen general registers, `V0` to `VF`.
    pub registers: Seq<u8>,
    /// The address register `I`.
    pub index: u16,
    /// The framebuffer: 32 rows of 64 pixels.
    pub pixels: Seq<Seq<PixelState>>,
    /// The sixteen keys; `true` stands for pressed.
    pub keys: Seq<bool>,
    /// The 4096 bytes of memory.
    pub memory: Seq<u8>,
    /// The return addresses, the most recent call last.
    pub stack: Seq<u16>,
    /// The program counter.
    pub pc: int,
    /// The delay timer.
    pub delay: u8,
    /// The sound timer.
    pub sound: u8,
}

/// The shape that every machine has: sixteen registers, sixteen keys, 4096
/// bytes of memory and a grid of 32 by 64 pixels.
pub open spec fn well_formed(machine: Machine) -> bool {
    &&& machine.registers.len() == 16
    &&& machine.keys.len() == 16
    &&& machine.memory.len() == MEMORY_SIZE
    &&& is_grid(machine.pixels)
}

/// What the caller of an executed instruction has to do next.
#[derive(Debug, Clone, Copy, PartialEq, Eq)]
pub enum Outcome {
    /// Go on with the instruction that follows.
    Next,
    /// Show the framebuffer, then go on with the instruction that follows.
    Draw,
    /// The instruction set the program counter: go on from there.
    Jumped,
    /// The instruction waits for a key and nothing has changed: execute it
    /// again once the input source has delivered a byte.
    Blocked,
}

/// A machine after an instruction, with how the instruction ended.
#[verifier::ext_equal]
pub struct Transition {
    pub machine: Machine,
    pub result: Result<Outcome, Chip8EmulatorError>,
}

/// The first nibble of an instruction: its family.
pub open spec fn family(instruction: u16) -> int {
    instruction as int / 0x1000
}

/// The second nibble of an instruction: mostly the register `x`.
pub open spec fn second_nibble(instruction: u16) -> int {
    (instruction as int / 0x100) % 16
}

/// The third nibble of an instruction: mostly the register `y`.
pub open spec fn third_nibble(instruction: u16) -> int {
    (instruction as int / 0x10) % 16
}

/// The fourth nibble of an instruction.
pub open spec fn fourth_nibble(instruction: u16) -> int {
    instruction as int % 16
}

/// The address operand `nnn`: the last three nibbles.
pub open spec fn address_operand(instruction: u16) -> u16 {
    (instruction % 0x1000) as u16
}

/// The byte operand `nn`: the last two nibbles.
pub open spec fn byte_operand(instruction: u16) -> u8 {
    (instruction % 0x100) as u8
}

/// The input byte that stands for each key, indexed by key code: the ASCII
/// codes of `x 1 2 3`, `q w e a`, `s d z c`, `4 r f v`.
pub open spec fn key_bytes() -> Seq<u8> {
    seq![
        0x78u8, 0x31, 0x32, 0x33,
        0x71, 0x77, 0x65, 0x61,
        0x73, 0x64, 0x7A, 0x63,
        0x34, 0x72, 0x66, 0x76,
    ]
}

/// The key that an input byte stands for, if any.
pub open spec fn key_of(byte: u8) -> Option<u8> {
    if key_bytes().contains(byte) {
        Some(key_bytes().index_of(byte) as u8)
    } else {
        None
    }
}

/// A byte stands for the key `key` exactly where it is the entry for `key`
/// in `key_bytes`: no byte stands for two keys.
pub proof fn lemma_key_of(byte: u8, key: u8)
    ensures
        key_of(byte) == Some(key) <==> key < 16 && key_bytes()[key as int] == byte,
{
    let layout = key_bytes();
    if key < 16 && layout[key as int] == byte {
        assert(layout.contains(byte));
    }
    if layout.contains(byte) {
        let found = layout.index_of(byte);
        assert(0 <= found < 16 && layout[found] == byte);
    }
}

/// Whether the key whose code is `key` is pressed. Codes past `0xF` name no
/// key and are never pressed.
pub open spec fn key_down(keys: Seq<bool>, key: u8) -> bool {
    key < 16 && keys[key as int]
}

/// The keypad on which `key` is pressed and no other key is.
pub open spec fn only_key(key: u8) -> Seq<bool> {
    Seq::new(16, |k: int| k == key)
}

/// The register file after the operation `operation` of the arithmetic
/// family on the registers `x` and `y`, or `None` where the family has no
/// such operation.
pub open spec fn alu(registers: Seq<u8>, x: int, y: int, operation: int) -> Option<Seq<u8>> {
    let vx = registers[x];
    let vy = registers[y];
    if operation == 0x0 {
        Some(registers.update(x, vy))
    } else if operation == 0x1 {
        Some(registers.update(x, vx | vy))
    } else if operation == 0x2 {
        Some(registers.update(x, vx & vy))
    } else if operation == 0x3 {
        Some(registers.update(x, vx ^ vy))
    } else if operation == 0x4 {
        Some(added(registers, x, vy))
    } else if operation == 0x5 {
        Some(subtracted(registers, x, vy))
    } else if operation == 0x6 {
        Some(shifted_right(registers, x))
    } else if operation == 0x7 {
        Some(flagged(registers, x, no_borrow(vy, vx), wrapped_difference(vy, vx)))
    } else if operation == 0xE {
        Some(shifted_left(registers, x))
    } else {
        None
    }
}

/// The hundreds, tens and units of `value`.
pub open spec fn decimal_digits(value: u8) -> Seq<u8> {
    seq![value / 100, (value / 10) % 10, value % 10]
}

/// `registers` with the first `count` of them read from `memory`, from
/// `address` on.
pub open spec fn read_into(registers: Seq<u8>, memory: Seq<u8>, address: int, count: int) -> Seq<
    u8,
> {
    Seq::new(
        registers.len(),
        |k: int|
            if k < count {
                memory[address + k]
            } else {
                registers[k]
            },
    )
}

/// The rows of the sprite that a draw instruction reads: `rows` bytes of
/// memory from `address` on.
pub open spec fn sprite_at(memory: Seq<u8>, address: int, rows: int) -> Seq<u8> {
    if rows == 0 {
        Seq::empty()
    } else {
        memory.subrange(address, address + rows)
    }
}

/// `machine` left as it is, with the error `error`.
pub open spec fn failed(machine: Machine, error: Chip8EmulatorError) -> Transition {
    Transition { machine, result: Err(error) }
}

/// `machine` with the outcome `outcome`.
pub open spec fn done(machine: Machine, outcome: Outcome) -> Transition {
    Transition { machine, result: Ok(outcome) }
}

/// `machine` with the program counter moved past the next instruction where
/// `condition` holds.
pub open spec fn skipped(machine: Machine, condition: bool) -> Transition {
    if condition {
        done(Machine { pc: machine.pc + 2, ..machine }, Outcome::Next)
    } else {
        done(machine, Outcome::Next)
    }
}

/// `machine` with the register file replaced.
pub open spec fn with_registers(machine: Machine, registers: Seq<u8>) -> Transition {
    done(Machine { registers, ..machine }, Outcome::Next)
}

/// What the instructions of family `0x0` do: `00E0` clears the screen and
/// `00EE` returns from a subroutine.
pub open spec fn execute_system(machine: Machine, instruction: u16) -> Transition {
    if instruction == 0x00E0 {
        done(Machine { pixels: blank_grid(), ..machine }, Outcome::Next)
    } else if instruction == 0x00EE {
        if machine.stack.len() == 0 {
            failed(machine, Chip8EmulatorError::StackUnderflow)
        } else {
            done(
                Machine {
                    pc: machine.stack.last() as int,
                    stack: machine.stack.drop_last(),
                    ..machine
                },
                Outcome::Jumped,
            )
        }
    } else {
        failed(machine, Chip8EmulatorError::InvalidInstruction(instruction))
    }
}

/// What the call instruction `2nnn` does.
pub open spec fn execute_call(machine: Machine, target: u16) -> Transition {
    if machine.stack.len() >= STACK_CAPACITY {
        failed(machine, Chip8EmulatorError::StackOverflow)
    } else {
        done(
            Machine {
                pc: target as int,
                stack: machine.stack.push(return_address(machine.pc)),
                ..machine
            },
            Outcome::Jumped,
        )
    }
}

/// What the draw instruction `Dxyn` does: the sprite of `rows` rows at `I`
/// is drawn at `(Vx, Vy)`, and `VF` tells whether a pixel was turned off.
pub open spec fn execute_draw(machine: Machine, x: int, y: int, rows: int) -> Transition {
    if rows > 0 && machine.index + rows > MEMORY_SIZE {
        failed(machine, Chip8EmulatorError::MemoryOutOfBounds)
    } else {
        let sprite = sprite_at(machine.memory, machine.index as int, rows);
        let vx = machine.registers[x] as int;
        let vy = machine.registers[y] as int;
        let flag: u8 = if collides(machine.pixels, sprite, vx, vy) {
            1
        } else {
            0
        };
        done(
            Machine {
                registers: machine.registers.update(FLAG as int, flag),
                pixels: drawn(machine.pixels, sprite, vx, vy),
                ..machine
            },
            Outcome::Draw,
        )
    }
}

/// What the instructions of family `0xE` do: `Ex9E` skips where the key
/// named by `Vx` is pressed, `ExA1` where it is not.
pub open spec fn execute_keys(machine: Machine, instruction: u16) -> Transition {
    let down = key_down(machine.keys, machine.registers[second_nibble(instruction)]);
    if byte_operand(instruction) == 0x9E {
        skipped(machine, down)
    } else if byte_operand(instruction) == 0xA1 {
        skipped(machine, !down)
    } else {
        failed(machine, Chip8EmulatorError::InvalidInstruction(instruction))
    }
}

/// What the key-wait instruction `Fx0A` does with the byte `input` from
/// the input source: a byte that stands for a key presses that key alone
/// and puts its code in `Vx`; without such a byte the machine stays blocked.
pub open spec fn execute_key_wait(machine: Machine, x: int, input: Option<u8>) -> Transition {
    match input {
        Some(byte) => match key_of(byte) {
            Some(key) => done(
                Machine {
                    registers: machine.registers.update(x, key),
                    keys: only_key(key),
                    ..machine
                },
                Outcome::Next,
            ),
            None => done(machine, Outcome::Blocked),
        },
        None => done(machine, Outcome::Blocked),
    }
}

/// What the instructions of family `0xF` do.
pub open spec fn execute_misc(machine: Machine, instruction: u16, input: Option<u8>) -> Transition {
    let x = second_nibble(instruction);
    let vx = machine.registers[x];
    let operation = byte_operand(instruction);
    let index = machine.index as int;
    if operation == 0x07 {
        with_registers(machine, machine.registers.update(x, machine.delay))
    } else if operation == 0x0A {
        execute_key_wait(machine, x, input)
    } else if operation == 0x15 {
        done(Machine { delay: vx, ..machine }, Outcome::Next)
    } else if operation == 0x18 {
        done(Machine { sound: vx, ..machine }, Outcome::Next)
    } else if operation == 0x1E {
        done(Machine { index: ((index + vx) % 0x1_0000) as u16, ..machine }, Outcome::Next)
    } else if operation == 0x29 {
        done(Machine { index: (vx * 5) as u16, ..machine }, Outcome::Next)
    } else if operation == 0x33 {
        if index + 2 >= MEMORY_SIZE {
            failed(machine, Chip8EmulatorError::MemoryOutOfBounds)
        } else {
            done(
                Machine { memory: overlaid(machine.memory, index, decimal_digits(vx)), ..machine },
                Outcome::Next,
            )
        }
    } else if operation == 0x55 {
        if index + x >= MEMORY_SIZE {
            failed(machine, Chip8EmulatorError::MemoryOutOfBounds)
        } else {
            done(
                Machine {
                    memory: overlaid(machine.memory, index, machine.registers.take(x + 1)),
                    ..machine
                },
                Outcome::Next,
            )
        }
    } else if operation == 0x65 {
        if index + x >= MEMORY_SIZE {
            failed(machine, Chip8EmulatorError::MemoryOutOfBounds)
        } else {
            with_registers(machine, read_into(machine.registers, machine.memory, index, x + 1))
        }
    } else {
        failed(machine, Chip8EmulatorError::InvalidInstruction(instruction))
    }
}

/// What `instruction` does to `machine`. `random` is the byte that the
/// random instruction `Cxnn` masks, and `input` the byte, if any, that the
/// input source delivered for the key-wait instruction `Fx0A`; no other
/// instruction reads them. Where the instruction fails the machine is left
/// as it was.
pub open spec fn execute(machine: Machine, instruction: u16, random: u8, input: Option<u8>) -> Transition {
    let x = second_nibble(instruction);
    let y = third_nibble(instruction);
    let nn = byte_operand(instruction);
    let nnn = address_operand(instruction);
    let vx = machine.registers[x];
    let vy = machine.registers[y];
    let op = family(instruction);
    if op == 0x0 {
        execute_system(machine, instruction)
    } else if op == 0x1 {
        done(Machine { pc: nnn as int, ..machine }, Outcome::Jumped)
    } else if op == 0x2 {
        execute_call(machine, nnn)
    } else if op == 0x3 {
        skipped(machine, vx == nn)
    } else if op == 0x4 {
        skipped(machine, vx != nn)
    } else if op == 0x5 {
        skipped(machine, vx == vy)
    } else if op == 0x6 {
        with_registers(machine, machine.registers.update(x, nn))
    } else if op == 0x7 {
        with_registers(machine, machine.registers.update(x, wrapped_sum(vx, nn)))
    } else if op == 0x8 {
        match alu(machine.registers, x, y, fourth_nibble(instruction)) {
            Some(registers) => with_registers(machine, registers),
            None => failed(machine, Chip8EmulatorError::InvalidInstruction(instruction)),
        }
    } else if op == 0x9 {
        skipped(machine, vx != vy)
    } else if op == 0xA {
        done(Machine { index: nnn, ..machine }, Outcome::Next)
    } else if op == 0xB {
        done(Machine { pc: machine.registers[0] + nnn, ..machine }, Outcome::Jumped)
    } else if op == 0xC {
        with_registers(machine, machine.registers.update(x, random & nn))
    } else if op == 0xD {
        execute_draw(machine, x, y, fourth_nibble(instruction))
    } else if op == 0xE {
        execute_keys(machine, instruction)
    } else {
        execute_misc(machine, instruction, input)
    }
}

/// How one cycle of the machine ended.
#[derive(Debug, Clone, Copy, PartialEq, Eq)]
pub enum Status {
    /// The program counter is past the end of memory or at the end-of-program
    /// mark: the machine has stopped, and nothing changed.
    Halted,
    /// An instruction was executed, with this outcome.
    Executed(Outcome),
}

/// A machine after a cycle, with how the cycle ended.
#[verifier::ext_equal]
pub struct Cycle {
    pub machine: Machine,
    pub result: Result<Status, Chip8EmulatorError>,
}

/// Whether the machine has stopped: its program counter is past the end of
/// memory, or the instruction there is the end-of-program mark.
pub open spec fn halted(machine: Machine) -> bool {
    machine.pc >= MEMORY_SIZE || (machine.pc + 1 < MEMORY_SIZE && instruction_at(
        machine.memory,
        machine.pc,
    ) == HALT)
}

/// `machine` with the program counter moved to the next instruction where
/// `outcome` asks for it: after `Next` and `Draw`, not after `Jumped` or
/// `Blocked`.
pub open spec fn advanced(machine: Machine, outcome: Outcome) -> Machine {
    match outcome {
        Outcome::Next | Outcome::Draw => Machine { pc: machine.pc + 2, ..machine },
        Outcome::Jumped | Outcome::Blocked => machine,
    }
}

/// One cycle: fetch the instruction at the program counter, execute it, and
/// move the program counter on. A stopped machine stays as it is; so does
/// one whose instruction fails, or lies across the end of memory.
pub open spec fn cycle(machine: Machine, random: u8, input: Option<u8>) -> Cycle {
    if halted(machine) {
        Cycle { machine, result: Ok(Status::Halted) }
    } else if machine.pc + 1 >= MEMORY_SIZE {
        Cycle { machine, result: Err(Chip8EmulatorError::MemoryOutOfBounds) }
    } else {
        let transition = execute(
            machine,
            instruction_at(machine.memory, machine.pc),
            random,
            input,
        );
        match transition.result {
            Ok(outcome) => Cycle {
                machine: advanced(transition.machine, outcome),
                result: Ok(Status::Executed(outcome)),
            },
            Err(error) => Cycle { machine, result: Err(error) },
        }
    }
}

} // verus!
