//! The 4096-byte memory: its layout, the font, and loading and fetching.

use vstd::prelude::*;
use crate::opcodes::Chip8EmulatorError;

verus! {

/// Number of addressable bytes.
pub const MEMORY_SIZE: usize = 4096;

/// Address of the first font byte.
pub const FONT_START: usize = 0x50;

/// Address of the first program byte.
pub const PROGRAM_START: usize = 0x200;

/// The instruction that marks the end of a program.
pub const HALT: u16 = 0xFFFF;

/// The font: sixteen glyphs, for the digits `0` to `F`, of five rows each.
pub open spec fn font_bytes() -> Seq<u8> {
    seq![
        0xF0u8, 0x90, 0x90, 0x90, 0xF0,
        0x20, 0x60, 0x20, 0x20, 0x70,
        0xF0, 0x10, 0xF0, 0x80, 0xF0,
        0xF0, 0x10, 0xF0, 0x10, 0xF0,
        0x90, 0x90, 0xF0, 0x10, 0x10,
        0xF0, 0x80, 0xF0, 0x10, 0xF0,
        0xF0, 0x80, 0xF0, 0x90, 0xF0,
        0xF0, 0x10, 0x20, 0x40, 0x40,
        0xF0, 0x90, 0xF0, 0x90, 0xF0,
        0xF0, 0x90, 0xF0, 0x10, 0xF0,
        0xF0, 0x90, 0xF0, 0x90, 0x90,
        0xE0, 0x90, 0xE0, 0x90, 0xE0,
        0xF0, 0x80, 0x80, 0x80, 0xF0,
        0xE0, 0x90, 0x90, 0x90, 0xE0,
        0xF0, 0x80, 0xF0, 0x80, 0xF0,
        0xF0, 0x80, 0xF0, 0x80, 0x80,
    ]
}

/// `memory` with `bytes` written from address `start` on and nothing else
/// changed.
pub open spec fn overlaid(memory: Seq<u8>, start: int, bytes: Seq<u8>) -> Seq<u8> {
    Seq::new(
        memory.len(),
        |a: int|
            if start <= a < start + bytes.len() {
                bytes[a - start]
            } else {
                memory[a]
            },
    )
}

/// The font as an array.
pub fn font() -> (glyphs: [u8; 80])
    ensures
        glyphs@ == font_bytes(),
{
    let glyphs: [u8; 80] = [
        0xF0, 0x90, 0x90, 0x90, 0xF0,
        0x20, 0x60, 0x20, 0x20, 0x70,
        0xF0, 0x10, 0xF0, 0x80, 0xF0,
        0xF0, 0x10, 0xF0, 0x10, 0xF0,
        0x90, 0x90, 0xF0, 0x10, 0x10,
        0xF0, 0x80, 0xF0, 0x10, 0xF0,
        0xF0, 0x80, 0xF0, 0x90, 0xF0,
        0xF0, 0x10, 0x20, 0x40, 0x40,
        0xF0, 0x90, 0xF0, 0x90, 0xF0,
        0xF0, 0x90, 0xF0, 0x10, 0xF0,
        0xF0, 0x90, 0xF0, 0x90, 0x90,
        0xE0, 0x90, 0xE0, 0x90, 0xE0,
        0xF0, 0x80, 0x80, 0x80, 0xF0,
        0xE0, 0x90, 0x90, 0x90, 0xE0,
        0xF0, 0x80, 0xF0, 0x80, 0xF0,
        0xF0, 0x80, 0xF0, 0x80, 0x80,
    ];
    glyphs
}

/// Writes the font into `memory` from `FONT_START` on.
pub fn load_font(memory: &mut [u8; 4096])
    ensures
        final(memory)@ == overlaid(old(memory)@, FONT_START as int, font_bytes()),
{
    let glyphs = font();
    let mut i: usize = 0;
    while i < 80
        invariant
            i <= 80,
            glyphs@ == font_bytes(),
            font_bytes().len() == 80,
            memory@ == overlaid(old(memory)@, FONT_START as int, font_bytes().take(i as int)),
        decreases 80 - i,
    {
        memory[i + FONT_START] = glyphs[i];
        i += 1;
    }
}

/// The part of a program image that is loaded: its whole two-byte
/// instructions. A trailing odd byte is left out.
pub open spec fn whole_instructions(image: Seq<u8>) -> Seq<u8> {
    image.take(image.len() - image.len() % 2)
}

/// Copies the whole instructions of `image` into `memory` from
/// `start_address` on. Where they do not fit, nothing is written and the
/// load fails.
pub fn load_program(memory: &mut [u8; 4096], image: &[u8], start_address: usize) -> (result: Result<
    (),
    Chip8EmulatorError,
>)
    ensures
        start_address + whole_instructions(image@).len() <= MEMORY_SIZE ==> {
            &&& result == Ok::<(), Chip8EmulatorError>(())
            &&& final(memory)@ == overlaid(
                old(memory)@,
                start_address as int,
                whole_instructions(image@),
            )
        },
        start_address + whole_instructions(image@).len() > MEMORY_SIZE ==> {
            &&& result == Err::<(), Chip8EmulatorError>(Chip8EmulatorError::MemoryOutOfBounds)
            &&& final(memory)@ == old(memory)@
        },
{
    let length: usize = image.len() - image.len() % 2;
    if start_address > MEMORY_SIZE || length > MEMORY_SIZE - start_address {
        return Err(Chip8EmulatorError::MemoryOutOfBounds);
    }
    let mut offset: usize = 0;
    while offset < length
        invariant
            offset <= length,
            offset % 2 == 0,
            length % 2 == 0,
            length == whole_instructions(image@).len(),
            length <= image@.len(),
            start_address + length <= MEMORY_SIZE,
            memory@ == overlaid(old(memory)@, start_address as int, image@.take(offset as int)),
        decreases length - offset,
    {
        memory[start_address + offset] = image[offset];
        memory[start_address + offset + 1] = image[offset + 1];
        offset += 2;
    }
    Ok(())
}

/// The instruction stored at `address`: two bytes, the high byte first.
pub open spec fn instruction_at(memory: Seq<u8>, address: int) -> u16 {
    (memory[address] * 256 + memory[address + 1]) as u16
}

/// Reads the instruction stored at `address`.
pub fn fetch_instruction(memory: &[u8; 4096], address: usize) -> (instruction: u16)
    requires
        address + 1 < MEMORY_SIZE,
    ensures
        instruction == instruction_at(memory@, address as int),
{
    let high: u16 = memory[address] as u16;
    let low: u16 = memory[address + 1] as u16;
    assert((high << 8) | low == high * 256 + low) by (bit_vector)
        requires
            high < 256,
            low < 256,
    ;
    (high << 8) | low
}

} // verus!
