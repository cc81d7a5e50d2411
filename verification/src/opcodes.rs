//! The arithmetic and control-flow instructions, each as a function on the
//! part of the machine it touches.

use rand::Rng;
use vstd::prelude::*;

verus! {

/// The call stack: return addresses, the most recent call last.
pub type Stack<T> = Vec<T>;

/// The fatal conditions of the machine.
#[derive(Debug, Clone, Copy, PartialEq, Eq)]
pub enum Chip8EmulatorError {
    /// A call was made with the stack already holding `STACK_CAPACITY` addresses.
    StackOverflow,
    /// A return was made with the stack empty.
    StackUnderflow,
    /// The instruction, given here as fetched, is not part of the instruction set.
    InvalidInstruction(u16),
    /// An instruction or a program image reached past the end of memory.
    MemoryOutOfBounds,
}

/// How many return addresses the stack holds at most.
pub const STACK_CAPACITY: usize = 12;

/// The register that doubles as carry, borrow and shift-out flag.
pub const FLAG: usize = 0xF;

/// `a + b` modulo 256.
pub open spec fn wrapped_sum(a: u8, b: u8) -> u8 {
    ((a + b) % 256) as u8
}

/// 1 when `a + b` does not fit in eight bits, else 0.
pub open spec fn carry(a: u8, b: u8) -> u8 {
    if a + b > 255 {
        1
    } else {
        0
    }
}

/// `a - b` modulo 256.
pub open spec fn wrapped_difference(a: u8, b: u8) -> u8 {
    ((a - b) % 256) as u8
}

/// 1 when `a - b` needs no borrow, that is when `a >= b`, else 0.
pub open spec fn no_borrow(a: u8, b: u8) -> u8 {
    if a >= b {
        1
    } else {
        0
    }
}

/// The register file after the flag register took `flag` and then register
/// `index` took `result`. Where `index` is the flag register itself, the
/// result is what stays.
pub open spec fn flagged(registers: Seq<u8>, index: int, flag: u8, result: u8) -> Seq<u8> {
    registers.update(FLAG as int, flag).update(index, result)
}

/// The register file after `value` was added to register `index` with the
/// carry recorded in the flag register.
pub open spec fn added(registers: Seq<u8>, index: int, value: u8) -> Seq<u8> {
    flagged(registers, index, carry(registers[index], value), wrapped_sum(registers[index], value))
}

/// The register file after `value` was subtracted from register `index` with
/// the absence of a borrow recorded in the flag register.
pub open spec fn subtracted(registers: Seq<u8>, index: int, value: u8) -> Seq<u8> {
    flagged(
        registers,
        index,
        no_borrow(registers[index], value),
        wrapped_difference(registers[index], value),
    )
}

/// The register file after register `index` was shifted left by one bit. The
/// flag register first takes the bit that leaves; the shift then reads
/// register `index` again, so shifting the flag register shifts that bit.
pub open spec fn shifted_left(registers: Seq<u8>, index: int) -> Seq<u8> {
    let flagged = registers.update(FLAG as int, (registers[index] / 128) as u8);
    flagged.update(index, ((flagged[index] * 2) % 256) as u8)
}

/// The register file after register `index` was shifted right by one bit. The
/// flag register first takes the bit that leaves; the shift then reads
/// register `index` again, so shifting the flag register shifts that bit.
pub open spec fn shifted_right(registers: Seq<u8>, index: int) -> Seq<u8> {
    let flagged = registers.update(FLAG as int, (registers[index] % 2) as u8);
    flagged.update(index, (flagged[index] / 2) as u8)
}

/// Adds `value` to register `index` and records the carry in the flag register.
pub fn add_instruction(registers: &mut [u8; 16], index: usize, value: u8)
    requires
        index < 16,
    ensures
        final(registers)@ == added(old(registers)@, index as int, value),
{
    let current: u8 = registers[index];
    let result: u8 = current.wrapping_add(value);
    let is_overflow: bool = value > u8::MAX - current;
    registers[FLAG] = if is_overflow { 1 } else { 0 };
    registers[index] = result;
}

/// Adds `value` to register `index`, wrapping silently: the flag register is
/// written only where it is register `index` itself.
pub fn add_no_overflow_instruction(registers: &mut [u8; 16], index: usize, value: u8)
    requires
        index < 16,
    ensures
        final(registers)@ == old(registers)@.update(
            index as int,
            wrapped_sum(old(registers)@[index as int], value),
        ),
{
    let result: u8 = registers[index].wrapping_add(value);
    registers[index] = result;
}

/// Subtracts `value` from register `index` and records in the flag register
/// whether no borrow was needed.
pub fn sub_instruction(registers: &mut [u8; 16], index: usize, value: u8)
    requires
        index < 16,
    ensures
        final(registers)@ == subtracted(old(registers)@, index as int, value),
{
    let current: u8 = registers[index];
    let result: u8 = current.wrapping_sub(value);
    let is_borrow: bool = current < value;
    registers[FLAG] = if is_borrow { 0 } else { 1 };
    registers[index] = result;
}

/// Shifts register `index` left by one bit; the flag register takes the bit
/// shifted out.
pub fn shl_instruction(registers: &mut [u8; 16], index: usize)
    requires
        index < 16,
    ensures
        final(registers)@ == shifted_left(old(registers)@, index as int),
{
    let before: u8 = registers[index];
    assert((before & 0b1000_0000) >> 7 == before / 128) by (bit_vector);
    registers[FLAG] = (before & 0b1000_0000) >> 7;
    let current: u8 = registers[index];
    assert(current << 1 == (current * 2) % 256) by (bit_vector);
    registers[index] = current << 1;
}

/// Shifts register `index` right by one bit; the flag register takes the bit
/// shifted out.
pub fn shr_instruction(registers: &mut [u8; 16], index: usize)
    requires
        index < 16,
    ensures
        final(registers)@ == shifted_right(old(registers)@, index as int),
{
    let before: u8 = registers[index];
    assert(before & 0b0000_0001 == before % 2) by (bit_vector);
    registers[FLAG] = before & 0b0000_0001;
    let current: u8 = registers[index];
    assert(current >> 1 == current / 2) by (bit_vector);
    registers[index] = current >> 1;
}

/// Sets the program counter to `next_address`.
pub fn jump_instruction(pc: &mut usize, next_address: u16)
    ensures
        *final(pc) == next_address,
{
    *pc = next_address as usize;
}

/// The return address that a call made at `pc` leaves on the stack: `pc`
/// cut to sixteen bits.
pub open spec fn return_address(pc: int) -> u16 {
    (pc % 0x1_0000) as u16
}

/// Calls the subroutine at `next_address`: pushes the program counter and
/// jumps. With the stack full nothing changes and the call fails.
pub fn call_instruction(pc: &mut usize, next_address: u16, stack: &mut Stack<u16>) -> (result:
    Result<(), Chip8EmulatorError>)
    ensures
        old(stack)@.len() >= STACK_CAPACITY ==> {
            &&& result == Err::<(), Chip8EmulatorError>(Chip8EmulatorError::StackOverflow)
            &&& final(stack)@ == old(stack)@
            &&& *final(pc) == *old(pc)
        },
        old(stack)@.len() < STACK_CAPACITY ==> {
            &&& result == Ok::<(), Chip8EmulatorError>(())
            &&& final(stack)@ == old(stack)@.push(return_address(*old(pc) as int))
            &&& *final(pc) == next_address
        },
{
    if stack.len() >= STACK_CAPACITY {
        return Err(Chip8EmulatorError::StackOverflow);
    }
    let here: usize = *pc;
    assert(here as u16 == here % 0x1_0000) by (bit_vector);
    stack.push(#[verifier::truncate] (here as u16));
    *pc = next_address as usize;
    Ok(())
}

/// Returns from a subroutine: pops the most recent return address into the
/// program counter. With the stack empty nothing changes and the return fails.
pub fn return_instruction(pc: &mut usize, stack: &mut Stack<u16>) -> (result: Result<
    (),
    Chip8EmulatorError,
>)
    ensures
        old(stack)@.len() == 0 ==> {
            &&& result == Err::<(), Chip8EmulatorError>(Chip8EmulatorError::StackUnderflow)
            &&& final(stack)@ == old(stack)@
            &&& *final(pc) == *old(pc)
        },
        old(stack)@.len() > 0 ==> {
            &&& result == Ok::<(), Chip8EmulatorError>(())
            &&& final(stack)@ == old(stack)@.drop_last()
            &&& *final(pc) == old(stack)@.last()
        },
{
    match stack.pop() {
        Some(address) => {
            *pc = address as usize;
            Ok(())
        },
        None => Err(Chip8EmulatorError::StackUnderflow),
    }
}

/// Sets the program counter to `next_address` plus the value of register 0.
pub fn jump_v0_instruction(registers: [u8; 16], pc: &mut usize, next_address: u16)
    ensures
        *final(pc) == registers@[0] + next_address,
{
    *pc = registers[0] as usize + next_address as usize;
}

/// A byte from the thread's generator of `rand`: `rand::thread_rng()`, then
/// `Rng::gen_range` over the whole range `0..=255`. Nothing is claimed of the
/// byte: any value may come back, and two calls may differ.
#[verifier::external_body]
pub(crate) fn random_byte() -> (byte: u8) {
    let mut random = rand::thread_rng();
    random.gen_range(0..=255)
}

/// Sets register `index` to `random` masked by `value`.
pub fn rand_instruction_from(registers: &mut [u8; 16], index: usize, value: u8, random: u8)
    requires
        index < 16,
    ensures
        final(registers)@ == old(registers)@.update(index as int, random & value),
{
    registers[index] = random & value;
}

/// Sets register `index` to a random byte masked by `value`.
pub fn rand_instruction(registers: &mut [u8; 16], index: usize, value: u8)
    requires
        index < 16,
    ensures
        exists|random: u8|
            final(registers)@ == old(registers)@.update(index as int, #[trigger] (random & value)),
{
    let random = random_byte();
    rand_instruction_from(registers, index, value, random);
}

} // verus!
