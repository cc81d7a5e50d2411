//! What holds of the instructions whatever the machine they run on.

use vstd::prelude::*;
use crate::machine::{
    address_operand, byte_operand, execute, family, fourth_nibble, second_nibble, sprite_at,
    third_nibble, well_formed, Machine, Outcome,
};
use crate::opcodes::{Chip8EmulatorError, FLAG, STACK_CAPACITY};
use crate::screen::{
    collides, lemma_draw_twice_restores, sprite_lights, SCREEN_HEIGHT, SCREEN_WIDTH,
};

verus! {

/// An instruction that fails leaves the machine as it was.
pub proof fn lemma_failure_changes_nothing(
    machine: Machine,
    instruction: u16,
    random: u8,
    input: Option<u8>,
)
    ensures
        execute(machine, instruction, random, input).result is Err ==> execute(
            machine,
            instruction,
            random,
            input,
        ).machine == machine,
{
}

/// An instruction leaves a machine of the right shape in the right shape.
pub proof fn lemma_execute_keeps_shape(
    machine: Machine,
    instruction: u16,
    random: u8,
    input: Option<u8>,
)
    requires
        well_formed(machine),
    ensures
        well_formed(execute(machine, instruction, random, input).machine),
{
}

/// An instruction never leaves more than `STACK_CAPACITY` return addresses
/// on a stack that held no more than that.
pub proof fn lemma_stack_stays_within_capacity(
    machine: Machine,
    instruction: u16,
    random: u8,
    input: Option<u8>,
)
    requires
        machine.stack.len() <= STACK_CAPACITY,
    ensures
        execute(machine, instruction, random, input).machine.stack.len() <= STACK_CAPACITY,
{
}

/// Only the call `2nnn` and the return `00EE` change the stack.
pub proof fn lemma_stack_changes_on_call_and_return(
    machine: Machine,
    instruction: u16,
    random: u8,
    input: Option<u8>,
)
    ensures
        execute(machine, instruction, random, input).machine.stack != machine.stack ==> family(
            instruction,
        ) == 0x2 || instruction == 0x00EE,
{
}

/// Only the clear instruction `00E0` and the draw instruction `Dxyn` change
/// the framebuffer.
pub proof fn lemma_pixels_change_on_clear_and_draw(
    machine: Machine,
    instruction: u16,
    random: u8,
    input: Option<u8>,
)
    ensures
        execute(machine, instruction, random, input).machine.pixels != machine.pixels
            ==> instruction == 0x00E0 || family(instruction) == 0xD,
{
}

/// Only the key-wait instruction `Fx0A` changes the keypad.
pub proof fn lemma_keys_change_on_key_wait(
    machine: Machine,
    instruction: u16,
    random: u8,
    input: Option<u8>,
)
    ensures
        execute(machine, instruction, random, input).machine.keys != machine.keys ==> family(
            instruction,
        ) == 0xF && byte_operand(instruction) == 0x0A,
{
}

/// Only the random instruction `Cxnn` reads the random byte, and only the
/// key-wait instruction `Fx0A` reads the input byte.
pub proof fn lemma_who_reads_random_and_input(
    machine: Machine,
    instruction: u16,
    random: u8,
    input: Option<u8>,
    other_random: u8,
    other_input: Option<u8>,
)
    ensures
        family(instruction) != 0xC ==> execute(machine, instruction, random, input) == execute(
            machine,
            instruction,
            other_random,
            input,
        ),
        !(family(instruction) == 0xF && byte_operand(instruction) == 0x0A) ==> execute(
            machine,
            instruction,
            random,
            input,
        ) == execute(machine, instruction, random, other_input),
{
}

/// An instruction whose outcome is `Next` or `Draw` leaves the program
/// counter where it was or moves it past one instruction.
pub proof fn lemma_next_stays_near(
    machine: Machine,
    instruction: u16,
    random: u8,
    input: Option<u8>,
)
    ensures
        ({
            let after = execute(machine, instruction, random, input);
            after.result == Ok::<Outcome, Chip8EmulatorError>(Outcome::Next) || after.result == Ok::<
                Outcome,
                Chip8EmulatorError,
            >(Outcome::Draw) ==> after.machine.pc == machine.pc || after.machine.pc == machine.pc
                + 2
        }),
{
}

/// The instruction `7xnn` adds `nn` to `Vx` modulo 256 and changes nothing
/// else: the flag register is left alone unless it is `Vx` itself.
pub proof fn lemma_add_immediate(machine: Machine, add: u16, random: u8, input: Option<u8>)
    requires
        well_formed(machine),
        family(add) == 0x7,
    ensures
        ({
            let x = second_nibble(add);
            let sum = ((machine.registers[x] + byte_operand(add)) % 256) as u8;
            let after = execute(machine, add, random, input);
            &&& after.result == Ok::<Outcome, Chip8EmulatorError>(Outcome::Next)
            &&& after.machine == (Machine { registers: machine.registers.update(x, sum), ..machine })
            &&& x != FLAG ==> after.machine.registers[FLAG as int] == machine.registers[FLAG as int]
        }),
{
}

/// Loading `a` into `Vx` with `6xnn` and then adding `b` with `7xnn` leaves
/// `(a + b) mod 256` in `Vx` and changes nothing else.
pub proof fn lemma_load_then_add(
    machine: Machine,
    load: u16,
    add: u16,
    random: u8,
    input: Option<u8>,
)
    requires
        well_formed(machine),
        family(load) == 0x6,
        family(add) == 0x7,
        second_nibble(load) == second_nibble(add),
    ensures
        ({
            let x = second_nibble(load);
            let sum = ((byte_operand(load) + byte_operand(add)) % 256) as u8;
            let loaded = execute(machine, load, random, input);
            let after = execute(loaded.machine, add, random, input);
            &&& loaded.result == Ok::<Outcome, Chip8EmulatorError>(Outcome::Next)
            &&& after.result == Ok::<Outcome, Chip8EmulatorError>(Outcome::Next)
            &&& after.machine == (Machine { registers: machine.registers.update(x, sum), ..machine })
        }),
{
}

/// The instruction `8xy4`, where `Vx` is not the flag register, leaves the
/// sum of `Vx` and `Vy` modulo 256 in `Vx`, and in the flag register 1
/// where the sum is over 255 and 0 where it is not.
pub proof fn lemma_add_with_carry(machine: Machine, add: u16, random: u8, input: Option<u8>)
    requires
        well_formed(machine),
        family(add) == 0x8,
        fourth_nibble(add) == 0x4,
        second_nibble(add) != FLAG,
    ensures
        ({
            let x = second_nibble(add);
            let sum = machine.registers[x] + machine.registers[third_nibble(add)];
            let after = execute(machine, add, random, input);
            &&& after.result == Ok::<Outcome, Chip8EmulatorError>(Outcome::Next)
            &&& after.machine.registers[x] == sum % 256
            &&& after.machine.registers[FLAG as int] == 0 || after.machine.registers[FLAG as int]
                == 1
            &&& after.machine.registers[FLAG as int] == 1 <==> sum > 255
        }),
{
}

/// The instruction `8xy5`, where `Vx` is not the flag register, leaves the
/// difference of `Vx` and `Vy` modulo 256 in `Vx`, and in the flag register
/// 1 where no borrow was needed, that is where `Vx >= Vy`, and 0 where one
/// was.
pub proof fn lemma_subtract_with_borrow(
    machine: Machine,
    subtract: u16,
    random: u8,
    input: Option<u8>,
)
    requires
        well_formed(machine),
        family(subtract) == 0x8,
        fourth_nibble(subtract) == 0x5,
        second_nibble(subtract) != FLAG,
    ensures
        ({
            let x = second_nibble(subtract);
            let vx = machine.registers[x];
            let vy = machine.registers[third_nibble(subtract)];
            let after = execute(machine, subtract, random, input);
            &&& after.result == Ok::<Outcome, Chip8EmulatorError>(Outcome::Next)
            &&& after.machine.registers[x] == (vx - vy) % 256
            &&& after.machine.registers[FLAG as int] == 0 || after.machine.registers[FLAG as int]
                == 1
            &&& after.machine.registers[FLAG as int] == 1 <==> vx >= vy
        }),
{
}

/// The instruction `8xy7`, where `Vx` is not the flag register, leaves the
/// difference of `Vy` and `Vx` modulo 256 in `Vx`, and in the flag register
/// 1 where `Vy >= Vx` and 0 where not.
pub proof fn lemma_subtract_reversed(
    machine: Machine,
    subtract: u16,
    random: u8,
    input: Option<u8>,
)
    requires
        well_formed(machine),
        family(subtract) == 0x8,
        fourth_nibble(subtract) == 0x7,
        second_nibble(subtract) != FLAG,
    ensures
        ({
            let x = second_nibble(subtract);
            let vx = machine.registers[x];
            let vy = machine.registers[third_nibble(subtract)];
            let after = execute(machine, subtract, random, input);
            &&& after.result == Ok::<Outcome, Chip8EmulatorError>(Outcome::Next)
            &&& after.machine.registers[x] == (vy - vx) % 256
            &&& after.machine.registers[FLAG as int] == 0 || after.machine.registers[FLAG as int]
                == 1
            &&& after.machine.registers[FLAG as int] == 1 <==> vy >= vx
        }),
{
}

/// The shift instructions `8xy6` and `8xyE`, where `Vx` is not the flag
/// register, leave in the flag register the bit that the shift pushed out
/// of the old `Vx`, the lowest for a right shift and the highest for a left
/// shift, and in `Vx` the old value shifted by one bit.
pub proof fn lemma_shift_keeps_lost_bit(
    machine: Machine,
    shift: u16,
    random: u8,
    input: Option<u8>,
)
    requires
        well_formed(machine),
        family(shift) == 0x8,
        fourth_nibble(shift) == 0x6 || fourth_nibble(shift) == 0xE,
        second_nibble(shift) != FLAG,
    ensures
        ({
            let x = second_nibble(shift);
            let vx = machine.registers[x];
            let after = execute(machine, shift, random, input);
            &&& after.result == Ok::<Outcome, Chip8EmulatorError>(Outcome::Next)
            &&& fourth_nibble(shift) == 0x6 ==> {
                &&& after.machine.registers[FLAG as int] == vx % 2
                &&& after.machine.registers[x] == vx / 2
            }
            &&& fourth_nibble(shift) == 0xE ==> {
                &&& after.machine.registers[FLAG as int] == vx / 128
                &&& after.machine.registers[x] == (vx * 2) % 256
            }
        }),
{
}

/// A call `2nnn` made with room on the stack, from a program counter that
/// fits in sixteen bits, jumps to `nnn`; the return `00EE` that follows
/// gives back the machine as it was before the call, program counter
/// included.
pub proof fn lemma_call_then_return(machine: Machine, call: u16, random: u8, input: Option<u8>)
    requires
        well_formed(machine),
        family(call) == 0x2,
        machine.stack.len() < STACK_CAPACITY,
        0 <= machine.pc < 0x1_0000,
    ensures
        ({
            let called = execute(machine, call, random, input);
            let returned = execute(called.machine, 0x00EE, random, input);
            &&& called.result == Ok::<Outcome, Chip8EmulatorError>(Outcome::Jumped)
            &&& called.machine.pc == address_operand(call)
            &&& called.machine.stack.len() == machine.stack.len() + 1
            &&& returned.result == Ok::<Outcome, Chip8EmulatorError>(Outcome::Jumped)
            &&& returned.machine == machine
        }),
{
}

/// A call `2nnn` made with the stack full fails with a stack overflow, and
/// a return `00EE` made with the stack empty with a stack underflow.
pub proof fn lemma_stack_limits(machine: Machine, call: u16, random: u8, input: Option<u8>)
    requires
        family(call) == 0x2,
    ensures
        machine.stack.len() >= STACK_CAPACITY ==> execute(machine, call, random, input).result
            == Err::<Outcome, Chip8EmulatorError>(Chip8EmulatorError::StackOverflow),
        machine.stack.len() == 0 ==> execute(machine, 0x00EE, random, input).result == Err::<
            Outcome,
            Chip8EmulatorError,
        >(Chip8EmulatorError::StackUnderflow),
{
}

/// A draw instruction `Dxyn` executed twice in a row, where neither
/// coordinate register is the flag register, gives back the framebuffer as
/// it was, and leaves in the flag register whether the second draw turned a
/// pixel off: that is, whether the sprite lies over a pixel that was off
/// before the first draw.
pub proof fn lemma_draw_twice(machine: Machine, draw: u16, random: u8, input: Option<u8>)
    requires
        well_formed(machine),
        family(draw) == 0xD,
        second_nibble(draw) != FLAG,
        third_nibble(draw) != FLAG,
        execute(machine, draw, random, input).result is Ok,
    ensures
        ({
            let vx = machine.registers[second_nibble(draw)] as int;
            let vy = machine.registers[third_nibble(draw)] as int;
            let sprite = sprite_at(machine.memory, machine.index as int, fourth_nibble(draw));
            let once = execute(machine, draw, random, input);
            let twice = execute(once.machine, draw, random, input);
            &&& twice.result == Ok::<Outcome, Chip8EmulatorError>(Outcome::Draw)
            &&& twice.machine.pixels == machine.pixels
            &&& twice.machine.registers[FLAG as int] == (if collides(
                once.machine.pixels,
                sprite,
                vx,
                vy,
            ) {
                1u8
            } else {
                0u8
            })
            &&& twice.machine.registers[FLAG as int] == 1 <==> exists|px: int, py: int|
                0 <= px < SCREEN_WIDTH && 0 <= py < SCREEN_HEIGHT && #[trigger] sprite_lights(
                    machine.pixels,
                    sprite,
                    vx,
                    vy,
                    px,
                    py,
                )
        }),
{
    let vx = machine.registers[second_nibble(draw)] as int;
    let vy = machine.registers[third_nibble(draw)] as int;
    let sprite = sprite_at(machine.memory, machine.index as int, fourth_nibble(draw));
    lemma_draw_twice_restores(machine.pixels, sprite, vx, vy);
}

} // verus!
