use chip8::engine::{step, step_with};
use chip8::keypad::Keypad;
use chip8::machine::{Outcome, Status};
use chip8::memory::{load_font, load_program, PROGRAM_START};
use chip8::opcodes::{Chip8EmulatorError, Stack};
use chip8::screen::{PixelState, Screen};
use chip8::timers::{DelayTimer, SoundTimer, Timer};

struct Machine {
    registers: [u8; 16],
    register_i: u16,
    screen: Screen,
    keypad: Keypad,
    memory: [u8; 4096],
    stack: Stack<u16>,
    pc: usize,
    delay: DelayTimer,
    sound: SoundTimer,
}

impl Machine {
    fn boot(image: &[u8]) -> Machine {
        let mut memory = [0u8; 4096];
        load_font(&mut memory);
        assert_eq!(load_program(&mut memory, image, PROGRAM_START), Ok(()));
        Machine {
            registers: [0; 16],
            register_i: 0x50,
            screen: Screen::new(),
            keypad: Keypad::new(),
            memory,
            stack: Stack::new(),
            pc: PROGRAM_START,
            delay: DelayTimer::new(),
            sound: SoundTimer::new(),
        }
    }

    fn step(&mut self, input: Option<u8>) -> Result<Status, Chip8EmulatorError> {
        step(
            &mut self.registers,
            &mut self.register_i,
            &mut self.screen,
            &mut self.keypad,
            &mut self.memory,
            &mut self.stack,
            &mut self.pc,
            &mut self.delay,
            &mut self.sound,
            input,
        )
    }

    fn step_with(&mut self, random: u8, input: Option<u8>) -> Result<Status, Chip8EmulatorError> {
        step_with(
            &mut self.registers,
            &mut self.register_i,
            &mut self.screen,
            &mut self.keypad,
            &mut self.memory,
            &mut self.stack,
            &mut self.pc,
            &mut self.delay,
            &mut self.sound,
            random,
            input,
        )
    }

    fn lit(&self) -> Vec<(u8, u8)> {
        let mut on = vec![];
        for y in 0..32u8 {
            for x in 0..64u8 {
                if self.screen.get_pixel(&x, &y) == Some(PixelState::On) {
                    on.push((x, y));
                }
            }
        }
        on
    }
}

#[test]
fn clear_then_halt_runs_to_completion() {
    let mut machine = Machine::boot(&[0x00, 0xE0, 0xFF, 0xFF]);
    let mut cycles = 0;
    loop {
        match machine.step(None) {
            Ok(Status::Halted) => break,
            Ok(Status::Executed(outcome)) => assert_eq!(outcome, Outcome::Next),
            Err(error) => panic!("fatal: {:?}", error),
        }
        cycles += 1;
        assert!(cycles < 10);
    }
    assert_eq!(cycles, 1);
    assert_eq!(machine.pc, 0x202);
    assert!(machine.lit().is_empty());
    assert_eq!(machine.registers, [0; 16]);
    assert!(machine.stack.is_empty());
}

#[test]
fn halted_machine_stays_halted() {
    let mut machine = Machine::boot(&[0xFF, 0xFF]);
    for _ in 0..3 {
        assert_eq!(machine.step(None), Ok(Status::Halted));
        assert_eq!(machine.pc, 0x200);
    }
}

#[test]
fn skip_then_jump_lands_on_0x208() {
    let mut machine = Machine::boot(&[0x6A, 0x0A, 0x3A, 0x0A, 0x12, 0x04, 0x12, 0x08]);
    let mut visited = vec![];
    for _ in 0..3 {
        visited.push(machine.pc);
        assert!(machine.step(None).is_ok());
    }
    assert_eq!(visited, vec![0x200, 0x202, 0x206]);
    assert_eq!(machine.pc, 0x208);
    assert_eq!(machine.registers[0xA], 0x0A);
}

#[test]
fn each_step_reports_its_outcome() {
    let mut machine = Machine::boot(&[0x6A, 0x0A, 0x3A, 0x0A, 0x12, 0x04, 0x12, 0x08]);
    assert_eq!(machine.step(None), Ok(Status::Executed(Outcome::Next)));
    assert_eq!(machine.pc, 0x202);
    assert_eq!(machine.step(None), Ok(Status::Executed(Outcome::Next)));
    assert_eq!(machine.pc, 0x206);
    assert_eq!(machine.step(None), Ok(Status::Executed(Outcome::Jumped)));
    assert_eq!(machine.pc, 0x208);
}

#[test]
fn skip_not_taken_goes_to_the_next_instruction() {
    let mut machine = Machine::boot(&[0x6A, 0x0B, 0x3A, 0x0A, 0x12, 0x04]);
    assert!(machine.step(None).is_ok());
    assert!(machine.step(None).is_ok());
    assert_eq!(machine.pc, 0x204);
    assert_eq!(machine.step(None), Ok(Status::Executed(Outcome::Jumped)));
    assert_eq!(machine.pc, 0x204);
}

#[test]
fn call_is_not_followed_by_an_advance() {
    let mut machine = Machine::boot(&[0x22, 0x06, 0xFF, 0xFF, 0xFF, 0xFF, 0x00, 0xEE]);
    assert_eq!(machine.step(None), Ok(Status::Executed(Outcome::Jumped)));
    assert_eq!(machine.pc, 0x206);
    assert_eq!(machine.stack, vec![0x200]);
    assert_eq!(machine.step(None), Ok(Status::Executed(Outcome::Jumped)));
    assert_eq!(machine.pc, 0x200);
    assert!(machine.stack.is_empty());
}

#[test]
fn thirteen_calls_overflow_the_stack() {
    let mut machine = Machine::boot(&[0x22, 0x00]);
    for depth in 0..12 {
        assert_eq!(machine.step(None), Ok(Status::Executed(Outcome::Jumped)));
        assert_eq!(machine.stack.len(), depth + 1);
    }
    assert_eq!(machine.step(None), Err(Chip8EmulatorError::StackOverflow));
    assert_eq!(machine.stack.len(), 12);
    assert_eq!(machine.pc, 0x200);
}

#[test]
fn draw_reports_that_the_screen_is_to_be_shown() {
    let mut machine = Machine::boot(&[0x60, 0x3C, 0x61, 0x1E, 0xD0, 0x15, 0xFF, 0xFF]);
    assert_eq!(machine.step(None), Ok(Status::Executed(Outcome::Next)));
    assert_eq!(machine.step(None), Ok(Status::Executed(Outcome::Next)));
    assert_eq!(machine.step(None), Ok(Status::Executed(Outcome::Draw)));
    assert_eq!(machine.pc, 0x206);
    assert_eq!(
        machine.lit(),
        vec![
            (60, 0), (63, 0),
            (60, 1), (63, 1),
            (60, 2), (61, 2), (62, 2), (63, 2),
            (60, 30), (61, 30), (62, 30), (63, 30),
            (60, 31), (63, 31),
        ]
    );
    assert_eq!(machine.registers[0xF], 0);
    assert_eq!(machine.step(None), Ok(Status::Halted));
}

#[test]
fn key_wait_blocks_until_a_key_byte_arrives() {
    let mut machine = Machine::boot(&[0xF3, 0x0A, 0xFF, 0xFF]);
    assert_eq!(machine.step(None), Ok(Status::Executed(Outcome::Blocked)));
    assert_eq!(machine.pc, 0x200);
    assert_eq!(machine.step(Some(b'\n')), Ok(Status::Executed(Outcome::Blocked)));
    assert_eq!(machine.pc, 0x200);
    assert_eq!(machine.step(Some(b'r')), Ok(Status::Executed(Outcome::Next)));
    assert_eq!(machine.pc, 0x202);
    assert_eq!(machine.registers[3], 0xD);
    assert!(machine.keypad.is_pressed(0xD));
    assert_eq!(machine.step(None), Ok(Status::Halted));
}

#[test]
fn invalid_instruction_stops_the_machine_where_it_is() {
    let mut machine = Machine::boot(&[0x6A, 0x0A, 0x80, 0x08]);
    assert_eq!(machine.step(None), Ok(Status::Executed(Outcome::Next)));
    assert_eq!(machine.step(None), Err(Chip8EmulatorError::InvalidInstruction(0x8008)));
    assert_eq!(machine.pc, 0x202);
    assert_eq!(machine.registers[0xA], 0x0A);
}

#[test]
fn zeroed_memory_is_not_an_instruction() {
    let mut machine = Machine::boot(&[]);
    assert_eq!(machine.step(None), Err(Chip8EmulatorError::InvalidInstruction(0x0000)));
    assert_eq!(machine.pc, 0x200);
}

#[test]
fn program_counter_past_memory_halts() {
    let mut machine = Machine::boot(&[]);
    machine.pc = 4096;
    assert_eq!(machine.step(None), Ok(Status::Halted));
    assert_eq!(machine.pc, 4096);
    machine.pc = usize::MAX;
    assert_eq!(machine.step(None), Ok(Status::Halted));
    assert_eq!(machine.pc, usize::MAX);
}

#[test]
fn instruction_across_the_end_of_memory_is_out_of_bounds() {
    let mut machine = Machine::boot(&[]);
    machine.memory[4095] = 0x60;
    machine.pc = 4095;
    assert_eq!(machine.step(None), Err(Chip8EmulatorError::MemoryOutOfBounds));
    assert_eq!(machine.pc, 4095);
}

#[test]
fn last_instruction_of_memory_runs_and_then_halts() {
    let mut machine = Machine::boot(&[]);
    machine.memory[4094] = 0x61;
    machine.memory[4095] = 0x2A;
    machine.pc = 4094;
    assert_eq!(machine.step(None), Ok(Status::Executed(Outcome::Next)));
    assert_eq!(machine.pc, 4096);
    assert_eq!(machine.registers[1], 0x2A);
    assert_eq!(machine.step(None), Ok(Status::Halted));
}

#[test]
fn step_with_masks_the_given_random_byte() {
    let mut machine = Machine::boot(&[0xC1, 0x3C, 0xFF, 0xFF]);
    assert_eq!(machine.step_with(0xF5, None), Ok(Status::Executed(Outcome::Next)));
    assert_eq!(machine.registers[1], 0x34);
    assert_eq!(machine.pc, 0x202);
}

#[test]
fn step_masks_a_random_byte() {
    for _ in 0..100 {
        let mut machine = Machine::boot(&[0xC1, 0x03, 0xFF, 0xFF]);
        assert_eq!(machine.step(None), Ok(Status::Executed(Outcome::Next)));
        assert!(machine.registers[1] <= 3);
        assert_eq!(machine.step(None), Ok(Status::Halted));
    }
}

#[test]
fn counting_loop_runs_to_the_halt_mark() {
    // V0 = 0; loop: V0 += 1; skip if V0 == 5; jump loop; halt
    let image = [0x60, 0x00, 0x70, 0x01, 0x30, 0x05, 0x12, 0x02, 0xFF, 0xFF];
    let mut machine = Machine::boot(&image);
    let mut cycles = 0;
    while machine.step(None) != Ok(Status::Halted) {
        cycles += 1;
        assert!(cycles < 100);
    }
    assert_eq!(cycles, 1 + 5 * 3 - 1);
    assert_eq!(machine.registers[0], 5);
    assert_eq!(machine.pc, 0x208);
}

#[test]
fn timers_are_reached_through_the_program() {
    let image = [0x60, 0x2A, 0xF0, 0x15, 0xF0, 0x18, 0xF1, 0x07, 0xFF, 0xFF];
    let mut machine = Machine::boot(&image);
    while machine.step(None) != Ok(Status::Halted) {}
    assert_eq!(machine.delay.get_timer(), 0x2A);
    assert_eq!(machine.sound.get_timer(), 0x2A);
    assert_eq!(machine.registers[1], 0x2A);
}
