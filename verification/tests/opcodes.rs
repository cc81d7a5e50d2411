use chip8::opcodes::{
    add_instruction, add_no_overflow_instruction, call_instruction, jump_instruction,
    jump_v0_instruction, rand_instruction, rand_instruction_from, return_instruction,
    shl_instruction, shr_instruction, sub_instruction, Chip8EmulatorError, Stack, FLAG,
    STACK_CAPACITY,
};

fn file(values: &[(usize, u8)]) -> [u8; 16] {
    let mut registers = [0u8; 16];
    for (index, value) in values {
        registers[*index] = *value;
    }
    registers
}

#[test]
fn add_without_carry() {
    let mut registers = file(&[(2, 100), (FLAG, 9)]);
    add_instruction(&mut registers, 2, 55);
    assert_eq!(registers, file(&[(2, 155), (FLAG, 0)]));
}

#[test]
fn add_with_carry() {
    let mut registers = file(&[(2, 200), (5, 7)]);
    add_instruction(&mut registers, 2, 100);
    assert_eq!(registers, file(&[(2, 44), (5, 7), (FLAG, 1)]));
}

#[test]
fn add_at_the_edge_of_carry() {
    let mut registers = file(&[(0, 255)]);
    add_instruction(&mut registers, 0, 0);
    assert_eq!(registers, file(&[(0, 255), (FLAG, 0)]));
    add_instruction(&mut registers, 0, 1);
    assert_eq!(registers, file(&[(0, 0), (FLAG, 1)]));
}

#[test]
fn add_into_the_flag_register_keeps_the_sum() {
    let mut registers = file(&[(FLAG, 3)]);
    add_instruction(&mut registers, FLAG, 4);
    assert_eq!(registers, file(&[(FLAG, 7)]));
    let mut registers = file(&[(FLAG, 250)]);
    add_instruction(&mut registers, FLAG, 10);
    assert_eq!(registers, file(&[(FLAG, 4)]));
}

#[test]
fn add_no_overflow_wraps_and_leaves_the_flag() {
    let mut registers = file(&[(1, 250), (FLAG, 1)]);
    add_no_overflow_instruction(&mut registers, 1, 10);
    assert_eq!(registers, file(&[(1, 4), (FLAG, 1)]));
    let mut registers = file(&[(1, 1), (FLAG, 0)]);
    add_no_overflow_instruction(&mut registers, 1, 2);
    assert_eq!(registers, file(&[(1, 3), (FLAG, 0)]));
}

#[test]
fn sub_without_borrow_sets_the_flag() {
    let mut registers = file(&[(3, 10)]);
    sub_instruction(&mut registers, 3, 4);
    assert_eq!(registers, file(&[(3, 6), (FLAG, 1)]));
    let mut registers = file(&[(3, 10)]);
    sub_instruction(&mut registers, 3, 10);
    assert_eq!(registers, file(&[(3, 0), (FLAG, 1)]));
}

#[test]
fn sub_with_borrow_clears_the_flag_and_wraps() {
    let mut registers = file(&[(3, 4), (FLAG, 1)]);
    sub_instruction(&mut registers, 3, 10);
    assert_eq!(registers, file(&[(3, 250), (FLAG, 0)]));
}

#[test]
fn shift_left_keeps_the_highest_bit() {
    let mut registers = file(&[(4, 0b1000_0001)]);
    shl_instruction(&mut registers, 4);
    assert_eq!(registers, file(&[(4, 0b0000_0010), (FLAG, 1)]));
    let mut registers = file(&[(4, 0b0100_0001), (FLAG, 1)]);
    shl_instruction(&mut registers, 4);
    assert_eq!(registers, file(&[(4, 0b1000_0010), (FLAG, 0)]));
}

#[test]
fn shift_right_keeps_the_lowest_bit() {
    let mut registers = file(&[(4, 0b1000_0001)]);
    shr_instruction(&mut registers, 4);
    assert_eq!(registers, file(&[(4, 0b0100_0000), (FLAG, 1)]));
    let mut registers = file(&[(4, 0b1000_0010), (FLAG, 1)]);
    shr_instruction(&mut registers, 4);
    assert_eq!(registers, file(&[(4, 0b0100_0001), (FLAG, 0)]));
}

#[test]
fn shifting_the_flag_register_shifts_the_lost_bit() {
    let mut registers = file(&[(FLAG, 0b1000_0001)]);
    shl_instruction(&mut registers, FLAG);
    assert_eq!(registers, file(&[(FLAG, 2)]));
    let mut registers = file(&[(FLAG, 0b1000_0001)]);
    shr_instruction(&mut registers, FLAG);
    assert_eq!(registers, file(&[(FLAG, 0)]));
}

#[test]
fn jump_sets_the_program_counter() {
    let mut pc = 0x200;
    jump_instruction(&mut pc, 0x0ABC);
    assert_eq!(pc, 0x0ABC);
    jump_instruction(&mut pc, 0xFFFF);
    assert_eq!(pc, 0xFFFF);
}

#[test]
fn jump_v0_adds_register_zero() {
    let mut pc = 0x200;
    jump_v0_instruction(file(&[(0, 0x10), (1, 0x99)]), &mut pc, 0x300);
    assert_eq!(pc, 0x310);
    jump_v0_instruction(file(&[(0, 0xFF)]), &mut pc, 0xFFFF);
    assert_eq!(pc, 0xFFFF + 0xFF);
}

#[test]
fn call_pushes_and_jumps() {
    let mut pc = 0x234;
    let mut stack: Stack<u16> = Stack::new();
    assert_eq!(call_instruction(&mut pc, 0x400, &mut stack), Ok(()));
    assert_eq!(pc, 0x400);
    assert_eq!(stack, vec![0x234]);
    assert_eq!(call_instruction(&mut pc, 0x500, &mut stack), Ok(()));
    assert_eq!(pc, 0x500);
    assert_eq!(stack, vec![0x234, 0x400]);
}

#[test]
fn call_cuts_the_return_address_to_sixteen_bits() {
    let mut pc = 0x1_0234;
    let mut stack: Stack<u16> = Stack::new();
    assert_eq!(call_instruction(&mut pc, 0x400, &mut stack), Ok(()));
    assert_eq!(stack, vec![0x0234]);
}

#[test]
fn thirteenth_call_overflows() {
    let mut pc = 0x200;
    let mut stack: Stack<u16> = Stack::new();
    for depth in 0..STACK_CAPACITY {
        let target = 0x300 + 2 * depth as u16;
        assert_eq!(call_instruction(&mut pc, target, &mut stack), Ok(()));
        assert_eq!(pc, target as usize);
        assert_eq!(stack.len(), depth + 1);
    }
    let before = stack.clone();
    assert_eq!(
        call_instruction(&mut pc, 0x999, &mut stack),
        Err(Chip8EmulatorError::StackOverflow)
    );
    assert_eq!(stack, before);
    assert_eq!(pc, 0x300 + 2 * 11);
}

#[test]
fn call_then_return_restores_the_program_counter() {
    for round in 0..12 {
        let start = 0x200 + 2 * round;
        let mut pc = start;
        let mut stack: Stack<u16> = Stack::new();
        assert_eq!(call_instruction(&mut pc, 0x600, &mut stack), Ok(()));
        assert_eq!(pc, 0x600);
        assert_eq!(return_instruction(&mut pc, &mut stack), Ok(()));
        assert_eq!(pc, start);
        assert!(stack.is_empty());
    }
}

#[test]
fn nested_calls_return_in_reverse() {
    let mut pc = 0x200;
    let mut stack: Stack<u16> = Stack::new();
    let mut callers = vec![];
    for depth in 0..12u16 {
        callers.push(pc);
        assert_eq!(call_instruction(&mut pc, 0x300 + depth * 0x10, &mut stack), Ok(()));
    }
    while let Some(caller) = callers.pop() {
        assert_eq!(return_instruction(&mut pc, &mut stack), Ok(()));
        assert_eq!(pc, caller);
    }
    assert!(stack.is_empty());
}

#[test]
fn return_on_an_empty_stack_underflows() {
    let mut pc = 0x222;
    let mut stack: Stack<u16> = Stack::new();
    assert_eq!(
        return_instruction(&mut pc, &mut stack),
        Err(Chip8EmulatorError::StackUnderflow)
    );
    assert_eq!(pc, 0x222);
    assert!(stack.is_empty());
}

#[test]
fn rand_from_masks_the_given_byte() {
    let mut registers = file(&[(6, 0xFF), (FLAG, 1)]);
    rand_instruction_from(&mut registers, 6, 0x0F, 0xA5);
    assert_eq!(registers, file(&[(6, 0x05), (FLAG, 1)]));
    rand_instruction_from(&mut registers, 6, 0xF0, 0xA5);
    assert_eq!(registers, file(&[(6, 0xA0), (FLAG, 1)]));
    rand_instruction_from(&mut registers, 6, 0xFF, 0x00);
    assert_eq!(registers, file(&[(6, 0x00), (FLAG, 1)]));
}

#[test]
fn rand_stays_under_the_mask() {
    for _ in 0..200 {
        let mut registers = file(&[(6, 0xFF), (7, 0x77)]);
        rand_instruction(&mut registers, 6, 0x0F);
        assert!(registers[6] <= 0x0F);
        assert_eq!(registers[7], 0x77);
        rand_instruction(&mut registers, 6, 0x00);
        assert_eq!(registers[6], 0);
        rand_instruction(&mut registers, 6, 0x81);
        assert_eq!(registers[6] & !0x81, 0);
    }
}

#[test]
fn rand_gives_more_than_one_value() {
    let mut seen = [false; 256];
    for _ in 0..2000 {
        let mut registers = [0u8; 16];
        rand_instruction(&mut registers, 0, 0xFF);
        seen[registers[0] as usize] = true;
    }
    assert!(seen.iter().filter(|s| **s).count() > 1);
}
