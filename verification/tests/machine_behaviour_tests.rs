//! Tests of the machine's exact behaviour: memory, registers, stack,
//! timers, sprites and the engine.

use chip8::emulator::cpu::Cpu;
use chip8::emulator::machine::KeyWait;
use chip8::emulator::memory::{Memory, MEMORY_SIZE};
use chip8::emulator::registers::Registers;
use chip8::emulator::stack::Stack;
use chip8::emulator::timers::Timers;
use chip8::error::EmulatorError;
use chip8::frontend::EmulatorBehaviorConfig;
use chip8::hardware::audio::NullAudio;
use chip8::hardware::display::{Display, DisplayError, SoftwareDisplay};
use chip8::hardware::input::{ChipKey, Input, SoftwareInput};
use std::cell::RefCell;
use std::rc::Rc;
use std::time::Duration;

#[test]
fn byte_written_is_byte_read_at_every_address() {
    let mut memory = Memory::new();
    for address in 0..4096u16 {
        let value = (address % 251) as u8;
        memory.write_byte(address, value).unwrap();
        assert_eq!(memory.read_byte(address).unwrap(), value);
    }
    for address in 0..4096u16 {
        assert_eq!(memory.read_byte(address).unwrap(), (address % 251) as u8);
    }
}

#[test]
fn refused_address_is_reported_and_changes_nothing() {
    let mut memory = Memory::new();
    let result = memory.write_byte(0x1000, 7);
    assert!(matches!(
        result,
        Err(EmulatorError::InvalidMemoryAccess { address: 0x1000 })
    ));
    assert!(matches!(
        memory.read_byte(0xFFFF),
        Err(EmulatorError::InvalidMemoryAccess { address: 0xFFFF })
    ));
    assert_eq!(memory.read_byte(0).unwrap(), 0);
}

#[test]
fn word_is_stored_high_byte_first() {
    let mut memory = Memory::new();
    memory.write_word(0x300, 0xABCD).unwrap();
    assert_eq!(memory.read_byte(0x300).unwrap(), 0xAB);
    assert_eq!(memory.read_byte(0x301).unwrap(), 0xCD);
    assert_eq!(memory.read_word(0x300).unwrap(), 0xABCD);
}

#[test]
fn word_write_at_last_address_keeps_high_byte_and_fails() {
    let mut memory = Memory::new();
    let result = memory.write_word(4095, 0x1234);
    assert!(matches!(
        result,
        Err(EmulatorError::InvalidMemoryAccess { address: 4096 })
    ));
    assert_eq!(memory.read_byte(4095).unwrap(), 0x12);
    assert!(matches!(
        memory.read_word(4095),
        Err(EmulatorError::InvalidMemoryAccess { address: 4096 })
    ));
}

#[test]
fn word_at_end_of_address_range_wraps_to_start() {
    let mut memory = Memory::new_with_wraparound(true);
    memory.write_word(0xFFFF, 0xBEEF).unwrap();
    assert_eq!(memory.read_byte(4095).unwrap(), 0xBE);
    assert_eq!(memory.read_byte(0).unwrap(), 0xEF);
    assert_eq!(memory.read_word(0xFFFF).unwrap(), 0xBEEF);
}

#[test]
fn program_load_boundaries() {
    let mut memory = Memory::new();
    assert!(matches!(memory.load_rom(&[]), Err(EmulatorError::RomEmpty)));

    let start = 0x600u16;
    let room = MEMORY_SIZE - start as usize;
    let too_long = vec![0xAA; room + 1];
    let result = memory.load_rom_at(&too_long, start);
    assert!(matches!(
        result,
        Err(EmulatorError::RomTooLarge { size, max_size }) if size == room + 1 && max_size == room
    ));
    assert_eq!(memory.read_byte(start).unwrap(), 0);

    let fitting = vec![0xBB; room];
    memory.load_rom_at(&fitting, start).unwrap();
    assert_eq!(memory.read_byte(start).unwrap(), 0xBB);
    assert_eq!(memory.read_byte(4095).unwrap(), 0xBB);
    assert_eq!(memory.read_byte(start - 1).unwrap(), 0);
}

#[test]
fn program_load_behind_end_of_memory_has_no_room() {
    let mut memory = Memory::new();
    let result = memory.load_rom_at(&[1], 0x2000);
    assert!(matches!(
        result,
        Err(EmulatorError::RomTooLarge { size: 1, max_size: 0 })
    ));
    let result = memory.load_rom_at(&[1], 4096);
    assert!(matches!(
        result,
        Err(EmulatorError::RomTooLarge { size: 1, max_size: 0 })
    ));
}

#[test]
fn program_load_clears_what_lay_behind_the_start() {
    let mut memory = Memory::new();
    memory.load_rom(&[1, 2, 3, 4, 5, 6]).unwrap();
    memory.write_byte(0xFFF, 9).unwrap();
    memory.write_byte(0x100, 7).unwrap();
    memory.load_rom(&[8, 8]).unwrap();
    assert_eq!(memory.get_slice(0x200, 6).unwrap(), &[8, 8, 0, 0, 0, 0]);
    assert_eq!(memory.read_byte(0xFFF).unwrap(), 0);
    assert_eq!(memory.read_byte(0x100).unwrap(), 7);
    assert_eq!(memory.read_byte(0x50).unwrap(), 0xF0);
}

#[test]
fn copy_tolerates_overlap() {
    let mut memory = Memory::new();
    memory.load_rom(&[1, 2, 3, 4]).unwrap();
    memory.copy(0x200, 0x201, 3).unwrap();
    assert_eq!(memory.get_slice(0x200, 4).unwrap(), &[1, 1, 2, 3]);
    assert!(matches!(
        memory.copy(0xFFF, 0x200, 2),
        Err(EmulatorError::InvalidMemoryAccess { address: 0xFFF })
    ));
    assert!(matches!(
        memory.copy(0x200, 0xFFF, 2),
        Err(EmulatorError::InvalidMemoryAccess { address: 0xFFF })
    ));
    assert!(matches!(
        memory.get_slice(0xFFF, usize::MAX),
        Err(EmulatorError::InvalidMemoryAccess { address: 0xFFF })
    ));
}

#[test]
fn font_address_of_every_glyph() {
    let memory = Memory::new();
    assert_eq!(memory.get_font_address(0xA).unwrap(), 0x50 + 50);
    assert!(matches!(
        memory.get_font_address(0x10),
        Err(EmulatorError::InvalidMemoryAccess { address: 0x10 })
    ));
}

#[test]
fn addition_sets_carry_on_overflow() {
    let mut registers = Registers::new();
    registers.set_v(1, 0xFF).unwrap();
    registers.set_v(2, 0x01).unwrap();
    registers.add_with_carry(1, 2).unwrap();
    assert_eq!(registers.get_v(1).unwrap(), 0x00);
    assert_eq!(registers.get_flag(), 1);

    registers.set_v(1, 0x10).unwrap();
    registers.set_v(2, 0x05).unwrap();
    registers.add_with_carry(1, 2).unwrap();
    assert_eq!(registers.get_v(1).unwrap(), 0x15);
    assert_eq!(registers.get_flag(), 0);
}

#[test]
fn subtraction_clears_flag_on_borrow() {
    let mut registers = Registers::new();
    registers.set_v(1, 0x10).unwrap();
    registers.set_v(2, 0x20).unwrap();
    registers.sub_with_borrow(1, 2).unwrap();
    assert_eq!(registers.get_v(1).unwrap(), 0xF0);
    assert_eq!(registers.get_flag(), 0);

    registers.set_v(1, 0x30).unwrap();
    registers.set_v(2, 0x10).unwrap();
    registers.sub_with_borrow(1, 2).unwrap();
    assert_eq!(registers.get_v(1).unwrap(), 0x20);
    assert_eq!(registers.get_flag(), 1);

    registers.set_v(1, 0x30).unwrap();
    registers.set_v(2, 0x10).unwrap();
    registers.sub_reverse_with_borrow(1, 2).unwrap();
    assert_eq!(registers.get_v(1).unwrap(), 0xE0);
    assert_eq!(registers.get_flag(), 0);
}

#[test]
fn flag_wins_where_the_flag_register_is_the_destination() {
    let mut registers = Registers::new();
    registers.set_v(0xF, 0xFF).unwrap();
    registers.set_v(2, 0x02).unwrap();
    registers.add_with_carry(0xF, 2).unwrap();
    assert_eq!(registers.get_flag(), 1);

    registers.set_v(0xF, 0x03).unwrap();
    registers.shift_right(0xF).unwrap();
    assert_eq!(registers.get_flag(), 1);
}

#[test]
fn shifts_put_the_lost_bit_into_the_flag() {
    let mut registers = Registers::new();
    registers.set_v(3, 0b1000_0101).unwrap();
    registers.shift_right(3).unwrap();
    assert_eq!(registers.get_v(3).unwrap(), 0b0100_0010);
    assert_eq!(registers.get_flag(), 1);

    registers.set_v(3, 0b1000_0101).unwrap();
    registers.shift_left(3).unwrap();
    assert_eq!(registers.get_v(3).unwrap(), 0b0000_1010);
    assert_eq!(registers.get_flag(), 1);

    registers.set_v(3, 0b0100_0100).unwrap();
    registers.shift_left(3).unwrap();
    assert_eq!(registers.get_flag(), 0);
}

#[test]
fn bad_register_is_reported_with_its_index() {
    let mut registers = Registers::new();
    assert!(matches!(
        registers.get_v(16),
        Err(EmulatorError::InvalidRegister { index: 16 })
    ));
    assert!(matches!(
        registers.set_v(200, 1),
        Err(EmulatorError::InvalidRegister { index: 200 })
    ));
    assert!(matches!(
        registers.add_with_carry(17, 18),
        Err(EmulatorError::InvalidRegister { index: 17 })
    ));
    assert!(matches!(
        registers.add_with_carry(1, 18),
        Err(EmulatorError::InvalidRegister { index: 18 })
    ));
    assert!(matches!(
        registers.set_v_range(14, &[1, 2, 3]),
        Err(EmulatorError::InvalidRegister { index: 16 })
    ));
    assert!(matches!(
        registers.get_v_range(10, 7),
        Err(EmulatorError::InvalidRegister { index: 16 })
    ));
    assert!(matches!(
        registers.get_v_range(255, 2),
        Err(EmulatorError::InvalidRegister { index: 0 })
    ));
    registers.set_v_range(14, &[1, 2]).unwrap();
    assert_eq!(registers.get_v_range(13, 3).unwrap(), &[0, 1, 2]);
}

#[test]
fn stack_pointer_shadow_stays_between_0_and_15() {
    let mut registers = Registers::new();
    assert!(matches!(
        registers.decrement_sp(),
        Err(EmulatorError::StackUnderflow)
    ));
    for _ in 0..15 {
        registers.increment_sp().unwrap();
    }
    assert_eq!(registers.get_sp(), 15);
    assert!(matches!(
        registers.increment_sp(),
        Err(EmulatorError::StackOverflow)
    ));
}

#[test]
fn program_counter_wraps_at_65536() {
    let mut registers = Registers::new();
    registers.set_pc(0xFFFE);
    registers.increment_pc();
    assert_eq!(registers.get_pc(), 0);
    registers.set_pc(0xFFFF);
    registers.skip_instruction();
    assert_eq!(registers.get_pc(), 1);
}

#[test]
fn stack_is_last_in_first_out() {
    let mut stack = Stack::new();
    stack.push(100).unwrap();
    stack.push(200).unwrap();
    stack.push(300).unwrap();
    assert_eq!(stack.pop().unwrap(), 300);
    assert_eq!(stack.pop().unwrap(), 200);
    assert_eq!(stack.pop().unwrap(), 100);
    assert!(matches!(stack.pop(), Err(EmulatorError::StackUnderflow)));
    assert!(matches!(stack.peek(), Err(EmulatorError::StackUnderflow)));
}

#[test]
fn seventeenth_push_overflows() {
    let mut stack = Stack::new();
    for address in 0..16u16 {
        stack.push(address).unwrap();
    }
    assert!(matches!(stack.push(16), Err(EmulatorError::StackOverflow)));
    assert_eq!(stack.depth(), 16);
    assert_eq!(stack.peek().unwrap(), 15);
    assert!(matches!(
        stack.load_values(&[0; 17]),
        Err(EmulatorError::StackOverflow)
    ));
    assert_eq!(stack.depth(), 16);
}

#[test]
fn stack_dump_reads_depth_and_entries() {
    let mut stack = Stack::new();
    assert_eq!(stack.dump(), "Stack: [empty]");
    stack.push(0x200).unwrap();
    assert_eq!(stack.dump(), "Stack (depth 1): 0x200 (top)");
    stack.push(0x5).unwrap();
    stack.push(0xABCD).unwrap();
    assert_eq!(stack.dump(), "Stack (depth 3): 0x200 -> 0x05 -> 0xabcd (top)");
    for _ in 0..13 {
        stack.push(0).unwrap();
    }
    assert!(stack.dump().starts_with("Stack (depth 16): 0x200 -> 0x05 -> 0xabcd -> 0x00"));
}

#[test]
fn ten_ticks_bring_a_delay_of_ten_to_zero() {
    let mut timers = Timers::new();
    timers.set_delay_timer(10);
    for left in (0..10).rev() {
        assert!(timers.update_by_ticks(1));
        assert_eq!(timers.get_delay_timer(), left);
    }
    assert!(!timers.update_by_ticks(1));
    assert_eq!(timers.get_delay_timer(), 0);
}

#[test]
fn ticks_at_once_equal_ticks_one_by_one() {
    let mut at_once = Timers::new();
    let mut one_by_one = Timers::new();
    at_once.set_both_timers(200, 7);
    one_by_one.set_both_timers(200, 7);
    at_once.update_by_ticks(12);
    for _ in 0..12 {
        one_by_one.update_by_ticks(1);
    }
    assert_eq!(at_once.get_both_timers(), (188, 0));
    assert_eq!(one_by_one.get_both_timers(), (188, 0));
    at_once.update_by_ticks(u32::MAX);
    assert!(at_once.are_both_timers_zero());
}

#[test]
fn measured_time_ticks_once_for_every_period() {
    let mut timers = Timers::new();
    timers.set_both_timers(10, 1);
    assert!(!timers.advance(15_999_999));
    assert_eq!(timers.get_both_timers(), (10, 1));
    assert_eq!(timers.time_until_next_update(), Duration::from_nanos(1));
    assert!(timers.advance(1));
    assert_eq!(timers.get_both_timers(), (9, 0));
    assert_eq!(timers.time_until_next_update(), Duration::from_nanos(16_000_000));
    assert!(timers.advance(3 * 16_000_000 + 5_000_000));
    assert_eq!(timers.get_both_timers(), (6, 0));
    let stats = timers.get_timing_stats();
    assert_eq!(stats.accumulated_time_ms, 5);
    assert_eq!(stats.time_until_next_update_ms, 11);
    assert_eq!(timers.total_ticks_elapsed(), 0);
    assert!(timers.advance(u128::MAX));
    assert_eq!(timers.get_both_timers(), (0, 0));
    timers.sync_to_real_time();
    assert_eq!(timers.nanos_until_next_update(), 16_000_000);
}

#[test]
fn wall_clock_never_raises_a_timer() {
    let mut timers = Timers::new();
    timers.set_both_timers(200, 100);
    for _ in 0..1000 {
        let (delay, sound) = timers.get_both_timers();
        timers.update();
        assert!(timers.get_delay_timer() <= delay);
        assert!(timers.get_sound_timer() <= sound);
    }
}

#[test]
fn sprite_collision_switches_pixel_off() {
    let mut display = SoftwareDisplay::new();
    display.set_pixel(1, 1, true).unwrap();
    let collision = display.draw_sprite(0, 1, &[0b01000000]).unwrap();
    assert!(collision);
    assert!(!display.get_pixel(1, 1).unwrap());
}

#[test]
fn sprite_wraps_around_the_right_edge() {
    let mut display = SoftwareDisplay::new();
    let collision = display.draw_sprite(63, 0, &[0b11000000]).unwrap();
    assert!(!collision);
    assert!(display.get_pixel(63, 0).unwrap());
    assert!(display.get_pixel(0, 0).unwrap());
    assert_eq!(display.get_buffer().iter().filter(|&&on| on).count(), 2);
}

#[test]
fn sprite_wraps_around_the_bottom_edge_and_past_255() {
    let mut display = SoftwareDisplay::new();
    display.draw_sprite(250, 31, &[0x80, 0x80]).unwrap();
    assert!(display.get_pixel(58, 31).unwrap());
    assert!(display.get_pixel(58, 0).unwrap());
    display.clear();
    display.draw_sprite(255, 255, &[0xFF]).unwrap();
    assert!(display.get_pixel(63, 31).unwrap());
    for x in 0..7 {
        assert!(display.get_pixel(x, 31).unwrap());
    }
    assert!(!display.get_pixel(7, 31).unwrap());
}

#[test]
fn sprite_drawn_twice_restores_the_display() {
    let mut display = SoftwareDisplay::new();
    display.set_pixel(3, 2, true).unwrap();
    display.set_pixel(10, 4, true).unwrap();
    let before: Vec<bool> = display.get_buffer().to_vec();
    let sprite = [0xF0, 0x90, 0x90, 0x90, 0xF0];
    display.draw_sprite(2, 1, &sprite).unwrap();
    assert_ne!(display.get_buffer(), &before[..]);
    let collision = display.draw_sprite(2, 1, &sprite).unwrap();
    assert!(collision);
    assert_eq!(display.get_buffer(), &before[..]);
}

#[test]
fn sprite_of_more_than_32_rows_meets_itself() {
    let mut display = SoftwareDisplay::new();
    let mut sprite = vec![0u8; 33];
    sprite[0] = 0x80;
    sprite[32] = 0x80;
    let collision = display.draw_sprite(0, 0, &sprite).unwrap();
    assert!(collision);
    assert!(!display.get_pixel(0, 0).unwrap());
}

#[test]
fn empty_sprite_leaves_display_clean() {
    let mut display = SoftwareDisplay::new();
    assert!(!display.draw_sprite(0, 0, &[]).unwrap());
    assert!(!display.is_dirty());
    display.draw_sprite(0, 0, &[0]).unwrap();
    assert!(display.is_dirty());
    display.render().unwrap();
    assert!(!display.is_dirty());
}

#[test]
fn pixel_outside_the_display_is_refused() {
    let mut display = SoftwareDisplay::new();
    assert!(matches!(
        display.get_pixel(64, 3),
        Err(DisplayError::InvalidCoordinates { x: 64, y: 3 })
    ));
    assert!(matches!(
        display.set_pixel(3, 32, true),
        Err(DisplayError::InvalidCoordinates { x: 3, y: 32 })
    ));
    assert!(!display.is_dirty());
}

#[test]
fn three_instructions_end_to_end() {
    let mut cpu = Cpu::new();
    cpu.load_rom(&[0x61, 0x05, 0x71, 0x10, 0xA4, 0x56]).unwrap();
    for _ in 0..3 {
        cpu.cycle().unwrap();
    }
    let state = cpu.get_state();
    assert_eq!(state.v[1], 0x15);
    assert_eq!(state.i, 0x456);
    assert_eq!(state.pc, 0x206);
    assert_eq!(state.instruction_count, 3);
}

#[test]
fn key_wait_takes_a_press_and_a_release() {
    let mut cpu = Cpu::new();
    let input = Rc::new(RefCell::new(SoftwareInput::new()));
    cpu.set_input(input.clone());
    cpu.load_rom(&[0xF1, 0x0A, 0x62, 0x07]).unwrap();

    assert_eq!(cpu.key_wait(), KeyWait::NotWaiting);
    cpu.cycle().unwrap();
    assert!(cpu.is_waiting_for_key());
    assert_eq!(cpu.key_wait(), KeyWait::Press { register: 1 });
    let waiting = cpu.get_state();
    assert_eq!(waiting.pc, 0x202);
    assert_eq!(waiting.instruction_count, 1);

    cpu.cycle().unwrap();
    assert_eq!(cpu.key_wait(), KeyWait::Press { register: 1 });
    assert_eq!(cpu.get_state().v[1], 0);

    input.borrow_mut().press_key(ChipKey::Key5);
    cpu.cycle().unwrap();
    assert_eq!(cpu.key_wait(), KeyWait::Release { register: 1, key: ChipKey::Key5 });
    assert_eq!(cpu.get_state().v[1], 0);
    assert_eq!(cpu.get_state().pc, 0x202);

    input.borrow_mut().release_key(ChipKey::Key5);
    cpu.cycle().unwrap();
    assert_eq!(cpu.key_wait(), KeyWait::NotWaiting);
    assert!(!cpu.is_waiting_for_key());
    let done = cpu.get_state();
    assert_eq!(done.v[1], 5);
    assert_eq!(done.pc, 0x202);
    assert_eq!(done.instruction_count, 1);

    cpu.cycle().unwrap();
    assert_eq!(cpu.get_state().v[2], 7);
    assert_eq!(cpu.get_state().pc, 0x204);
}

#[test]
fn key_wait_takes_the_lowest_key_and_ignores_others() {
    let mut cpu = Cpu::new();
    let input = Rc::new(RefCell::new(SoftwareInput::new()));
    cpu.set_input(input.clone());
    cpu.execute_instruction(0xF30A).unwrap();
    input.borrow_mut().press_key(ChipKey::KeyC);
    input.borrow_mut().press_key(ChipKey::Key2);
    cpu.cycle().unwrap();
    input.borrow_mut().release_key(ChipKey::KeyC);
    cpu.cycle().unwrap();
    assert!(cpu.is_waiting_for_key());
    input.borrow_mut().release_key(ChipKey::Key2);
    cpu.cycle().unwrap();
    assert!(!cpu.is_waiting_for_key());
    assert_eq!(cpu.get_state().v[3], 2);
}

#[test]
fn key_wait_goes_on_while_the_keypad_is_being_changed() {
    let mut cpu = Cpu::new();
    let input = Rc::new(RefCell::new(SoftwareInput::new()));
    cpu.set_input(input.clone());
    cpu.execute_instruction(0xF10A).unwrap();
    {
        let mut held = input.borrow_mut();
        held.press_key(ChipKey::Key1);
        cpu.cycle().unwrap();
    }
    assert!(cpu.is_waiting_for_key());
    input.borrow_mut().release_key(ChipKey::Key1);
    cpu.cycle().unwrap();
    assert!(cpu.is_waiting_for_key());
}

#[test]
fn key_wait_without_keypad_waits_for_the_driver() {
    let mut cpu = Cpu::new();
    cpu.handle_key_press(3).unwrap();
    assert!(!cpu.is_waiting_for_key());
    cpu.execute_instruction(0xF40A).unwrap();
    cpu.cycle().unwrap();
    assert!(cpu.is_waiting_for_key());
    cpu.handle_key_press(16).unwrap();
    assert_eq!(cpu.key_wait(), KeyWait::Press { register: 4 });
    cpu.handle_key_press(9).unwrap();
    cpu.handle_key_press(2).unwrap();
    cpu.cycle().unwrap();
    assert_eq!(cpu.key_wait(), KeyWait::Release { register: 4, key: ChipKey::Key9 });
    assert_eq!(cpu.get_state().v[4], 0);
}

#[test]
fn skip_on_key_follows_the_keypad() {
    let mut cpu = Cpu::new();
    let input = Rc::new(RefCell::new(SoftwareInput::new()));
    cpu.registers_mut().set_v(1, 0xA).unwrap();

    cpu.execute_instruction(0xE19E).unwrap();
    assert_eq!(cpu.get_state().pc, 0x200);
    cpu.execute_instruction(0xE1A1).unwrap();
    assert_eq!(cpu.get_state().pc, 0x202);

    cpu.set_input(input.clone());
    cpu.execute_instruction(0xE19E).unwrap();
    assert_eq!(cpu.get_state().pc, 0x202);
    cpu.execute_instruction(0xE1A1).unwrap();
    assert_eq!(cpu.get_state().pc, 0x204);

    input.borrow_mut().press_key(ChipKey::KeyA);
    cpu.execute_instruction(0xE19E).unwrap();
    assert_eq!(cpu.get_state().pc, 0x206);
    cpu.execute_instruction(0xE1A1).unwrap();
    assert_eq!(cpu.get_state().pc, 0x206);

    cpu.registers_mut().set_v(1, 0x1A).unwrap();
    cpu.execute_instruction(0xE19E).unwrap();
    cpu.execute_instruction(0xE1A1).unwrap();
    assert_eq!(cpu.get_state().pc, 0x206);
    assert!(input.borrow().is_key_pressed(ChipKey::KeyA));
}

#[test]
fn unknown_words_are_refused_with_the_word() {
    let mut cpu = Cpu::new();
    for word in [0x5001u16, 0x8008, 0x800F, 0x9001, 0xE000, 0xE19F, 0xF000, 0xF1FF, 0xFFFF] {
        let result = cpu.execute_instruction(word);
        assert!(
            matches!(result, Err(EmulatorError::UnknownInstruction { opcode }) if opcode == word),
            "{:#06x}",
            word
        );
    }
    let state = cpu.get_state();
    assert_eq!(state.pc, 0x200);
    assert_eq!(state.v, [0; 16]);
    cpu.execute_instruction(0x0123).unwrap();
    assert_eq!(cpu.get_state().pc, 0x200);
}

#[test]
fn failed_instruction_is_not_counted_but_has_moved_the_program_counter() {
    let mut cpu = Cpu::new();
    cpu.load_rom(&[0xFF, 0xFF]).unwrap();
    assert!(matches!(
        cpu.cycle(),
        Err(EmulatorError::UnknownInstruction { opcode: 0xFFFF })
    ));
    let state = cpu.get_state();
    assert_eq!(state.pc, 0x202);
    assert_eq!(state.instruction_count, 0);
}

#[test]
fn fetch_outside_memory_fails_without_moving() {
    let mut cpu = Cpu::new();
    cpu.registers_mut().set_pc(0x1000);
    assert!(matches!(
        cpu.cycle(),
        Err(EmulatorError::InvalidMemoryAccess { address: 0x1000 })
    ));
    assert_eq!(cpu.get_state().pc, 0x1000);
    cpu.registers_mut().set_pc(0xFFF);
    assert!(matches!(
        cpu.cycle(),
        Err(EmulatorError::InvalidMemoryAccess { address: 0x1000 })
    ));
    assert_eq!(cpu.get_state().pc, 0xFFF);

    let mut wrapping = Cpu::new_with_config(&EmulatorBehaviorConfig::classic());
    wrapping.registers_mut().set_pc(0x1200);
    wrapping.load_rom_at(&[0x6A, 0x42], 0x200).unwrap();
    wrapping.registers_mut().set_pc(0x1200);
    wrapping.cycle().unwrap();
    assert_eq!(wrapping.get_state().v[0xA], 0x42);
    assert_eq!(wrapping.get_state().pc, 0x1202);
}

#[test]
fn calls_nest_sixteen_deep() {
    let mut cpu = Cpu::new();
    for depth in 0..16 {
        cpu.execute_instruction(0x2300 + depth).unwrap();
    }
    assert_eq!(cpu.get_stack().depth(), 16);
    assert!(matches!(
        cpu.execute_instruction(0x2400),
        Err(EmulatorError::StackOverflow)
    ));
    assert_eq!(cpu.get_state().pc, 0x30F);
    for _ in 0..16 {
        cpu.execute_instruction(0x00EE).unwrap();
    }
    assert_eq!(cpu.get_state().pc, 0x200);
    assert!(matches!(
        cpu.execute_instruction(0x00EE),
        Err(EmulatorError::StackUnderflow)
    ));
}

#[test]
fn jumps_skips_and_loads() {
    let mut cpu = Cpu::new();
    cpu.execute_instruction(0x60FF).unwrap();
    cpu.execute_instruction(0xB123).unwrap();
    assert_eq!(cpu.get_state().pc, 0x123 + 0xFF);
    cpu.execute_instruction(0x1ABC).unwrap();
    assert_eq!(cpu.get_state().pc, 0xABC);
    cpu.execute_instruction(0x40FF).unwrap();
    assert_eq!(cpu.get_state().pc, 0xABC);
    cpu.execute_instruction(0x4000).unwrap();
    assert_eq!(cpu.get_state().pc, 0xABE);
    cpu.execute_instruction(0x61FF).unwrap();
    cpu.execute_instruction(0x5010).unwrap();
    assert_eq!(cpu.get_state().pc, 0xAC0);
    cpu.execute_instruction(0x9010).unwrap();
    assert_eq!(cpu.get_state().pc, 0xAC0);
    cpu.execute_instruction(0x7002).unwrap();
    assert_eq!(cpu.get_state().v[0], 0x01);
    cpu.execute_instruction(0x9010).unwrap();
    assert_eq!(cpu.get_state().pc, 0xAC2);
}

#[test]
fn logic_and_arithmetic_instructions() {
    let mut cpu = Cpu::new();
    cpu.execute_instruction(0x600C).unwrap();
    cpu.execute_instruction(0x610A).unwrap();
    cpu.execute_instruction(0x8011).unwrap();
    assert_eq!(cpu.get_state().v[0], 0x0E);
    cpu.execute_instruction(0x8012).unwrap();
    assert_eq!(cpu.get_state().v[0], 0x0A);
    cpu.execute_instruction(0x600C).unwrap();
    cpu.execute_instruction(0x8013).unwrap();
    assert_eq!(cpu.get_state().v[0], 0x06);
    cpu.execute_instruction(0x8017).unwrap();
    assert_eq!(cpu.get_state().v[0], 0x04);
    assert_eq!(cpu.get_state().v[0xF], 1);
    cpu.execute_instruction(0x8015).unwrap();
    assert_eq!(cpu.get_state().v[0], 0xFA);
    assert_eq!(cpu.get_state().v[0xF], 0);
    cpu.execute_instruction(0x8210).unwrap();
    assert_eq!(cpu.get_state().v[2], 0x0A);
    cpu.execute_instruction(0x802E).unwrap();
    assert_eq!(cpu.get_state().v[0], 0xF4);
    assert_eq!(cpu.get_state().v[0xF], 1);
    cpu.execute_instruction(0x8026).unwrap();
    assert_eq!(cpu.get_state().v[0], 0x7A);
    assert_eq!(cpu.get_state().v[0xF], 0);
}

#[test]
fn random_byte_is_masked() {
    let mut cpu = Cpu::new();
    for _ in 0..200 {
        cpu.execute_instruction(0xC100).unwrap();
        assert_eq!(cpu.get_state().v[1], 0);
        cpu.execute_instruction(0xC20F).unwrap();
        assert!(cpu.get_state().v[2] <= 0x0F);
    }
    cpu.rnd_vx_nn(3, 0x3C, 0xFF).unwrap();
    assert_eq!(cpu.get_state().v[3], 0x3C);
    assert!(matches!(
        cpu.rnd_vx_nn(16, 0xFF, 0xFF),
        Err(EmulatorError::InvalidRegister { index: 16 })
    ));
}

#[test]
fn index_register_instructions() {
    let mut cpu = Cpu::new();
    cpu.execute_instruction(0xAFFE).unwrap();
    cpu.execute_instruction(0x6001).unwrap();
    cpu.execute_instruction(0xF01E).unwrap();
    assert_eq!(cpu.get_state().i, 0xFFF);
    assert_eq!(cpu.get_state().v[0xF], 0);
    cpu.execute_instruction(0xF01E).unwrap();
    assert_eq!(cpu.get_state().i, 0x1000);
    assert_eq!(cpu.get_state().v[0xF], 1);
    cpu.registers_mut().set_i(0xFFFF);
    cpu.execute_instruction(0xF01E).unwrap();
    assert_eq!(cpu.get_state().i, 0);
    assert_eq!(cpu.get_state().v[0xF], 0);
    cpu.execute_instruction(0x61FB).unwrap();
    cpu.execute_instruction(0xF129).unwrap();
    assert_eq!(cpu.get_state().i, 0x50 + 0xB * 5);
}

#[test]
fn decimal_digits_of_every_byte() {
    let mut cpu = Cpu::new();
    cpu.registers_mut().set_i(0x300);
    for value in 0..=255u8 {
        cpu.registers_mut().set_v(7, value).unwrap();
        cpu.execute_instruction(0xF733).unwrap();
        let digits = cpu.get_memory().get_slice(0x300, 3).unwrap();
        assert_eq!(digits, &[value / 100, (value / 10) % 10, value % 10]);
    }
}

#[test]
fn block_store_keeps_what_it_wrote_before_it_failed() {
    let mut cpu = Cpu::new();
    for register in 0..4u8 {
        cpu.registers_mut().set_v(register, 0x11 * (register + 1)).unwrap();
    }
    cpu.registers_mut().set_i(0xFFE);
    assert!(matches!(
        cpu.execute_instruction(0xF355),
        Err(EmulatorError::InvalidMemoryAccess { address: 0x1000 })
    ));
    assert_eq!(cpu.get_memory().read_byte(0xFFE).unwrap(), 0x11);
    assert_eq!(cpu.get_memory().read_byte(0xFFF).unwrap(), 0x22);
    assert_eq!(cpu.get_state().i, 0xFFE);

    cpu.registers_mut().set_v(3, 0).unwrap();
    cpu.registers_mut().set_v(0, 0).unwrap();
    assert!(matches!(
        cpu.execute_instruction(0xF365),
        Err(EmulatorError::InvalidMemoryAccess { address: 0x1000 })
    ));
    assert_eq!(cpu.get_state().v[0], 0x11);
    assert_eq!(cpu.get_state().v[1], 0x22);
    assert_eq!(cpu.get_state().v[2], 0x33);
    assert_eq!(cpu.get_state().v[3], 0);

    cpu.registers_mut().set_i(0xFFF);
    cpu.registers_mut().set_v(5, 234).unwrap();
    assert!(matches!(
        cpu.execute_instruction(0xF533),
        Err(EmulatorError::InvalidMemoryAccess { address: 0x1000 })
    ));
    assert_eq!(cpu.get_memory().read_byte(0xFFF).unwrap(), 2);
}

#[test]
fn block_store_wraps_where_memory_wraps() {
    let mut cpu = Cpu::new_with_config(&EmulatorBehaviorConfig::classic());
    cpu.registers_mut().set_v(0, 0xAA).unwrap();
    cpu.registers_mut().set_v(1, 0xBB).unwrap();
    cpu.registers_mut().set_i(0xFFFF);
    cpu.execute_instruction(0xF155).unwrap();
    assert_eq!(cpu.get_memory().read_byte(0xFFF).unwrap(), 0xAA);
    assert_eq!(cpu.get_memory().read_byte(0x000).unwrap(), 0xBB);
    cpu.registers_mut().set_v(0, 0).unwrap();
    cpu.registers_mut().set_v(1, 0).unwrap();
    cpu.execute_instruction(0xF165).unwrap();
    assert_eq!(cpu.get_state().v[0], 0xAA);
    assert_eq!(cpu.get_state().v[1], 0xBB);
    assert_eq!(cpu.get_state().i, 0xFFFF);
}

#[test]
fn timer_instructions_move_values() {
    let mut cpu = Cpu::new();
    cpu.execute_instruction(0x6A2A).unwrap();
    cpu.execute_instruction(0xFA15).unwrap();
    cpu.execute_instruction(0xFA18).unwrap();
    assert_eq!(cpu.get_timers().get_both_timers(), (0x2A, 0x2A));
    assert!(cpu.should_play_sound());
    cpu.timers_mut().update_by_ticks(2);
    cpu.execute_instruction(0xFB07).unwrap();
    assert_eq!(cpu.get_state().v[0xB], 0x28);
    assert_eq!(cpu.get_state().delay_timer, 0x28);
}

#[test]
fn draw_without_display_clears_the_flag() {
    let mut cpu = Cpu::new();
    cpu.registers_mut().set_flag(7);
    cpu.execute_instruction(0xD005).unwrap();
    assert_eq!(cpu.get_state().v[0xF], 0);
    assert!(cpu.get_display_buffer().is_empty());
    cpu.execute_instruction(0x00E0).unwrap();
}

#[test]
fn draw_reads_the_sprite_at_the_index_register() {
    let mut cpu = Cpu::new();
    cpu.set_display(Box::new(SoftwareDisplay::new()));
    cpu.load_rom(&[0xA0, 0x55, 0x60, 0x3E, 0x61, 0x1F, 0xD0, 0x15, 0xD0, 0x15, 0x00, 0xE0])
        .unwrap();
    for _ in 0..4 {
        cpu.cycle().unwrap();
    }
    // Glyph 1 is 0x20 0x60 0x20 0x20 0x70, drawn at (62, 31).
    let lit: Vec<usize> = cpu
        .get_display_buffer()
        .iter()
        .enumerate()
        .filter(|(_, &on)| on)
        .map(|(place, _)| place)
        .collect();
    assert_eq!(
        lit,
        vec![
            0,
            63,
            64,
            2 * 64,
            3 * 64,
            3 * 64 + 1,
            3 * 64 + 63,
            31 * 64,
        ]
    );
    assert_eq!(cpu.get_state().v[0xF], 0);
    cpu.cycle().unwrap();
    assert_eq!(cpu.get_state().v[0xF], 1);
    assert!(cpu.get_display_buffer().iter().all(|&on| !on));
    cpu.registers_mut().set_flag(0);
    cpu.cycle().unwrap();
    assert_eq!(cpu.get_display_buffer().len(), 2048);
}

#[test]
fn draw_leaves_out_rows_past_the_end_of_memory() {
    let mut cpu = Cpu::new();
    cpu.set_display(Box::new(SoftwareDisplay::new()));
    cpu.load_rom_at(&[0xFF, 0xFF], 0xFFE).unwrap();
    cpu.registers_mut().set_i(0xFFE);
    cpu.execute_instruction(0xD00F).unwrap();
    assert_eq!(cpu.get_display_buffer().iter().filter(|&&on| on).count(), 16);
    cpu.registers_mut().set_i(0x1000);
    cpu.execute_instruction(0xD00F).unwrap();
    assert_eq!(cpu.get_display_buffer().iter().filter(|&&on| on).count(), 16);
    assert_eq!(cpu.get_state().v[0xF], 0);
}

#[test]
fn audio_sink_follows_the_sound_timer() {
    let mut cpu = Cpu::new();
    cpu.set_audio(Box::new(NullAudio::new()));
    cpu.load_rom(&[0x12, 0x00]).unwrap();
    cpu.timers_mut().set_sound_timer(200);
    cpu.cycle().unwrap();
    assert!(cpu.should_play_sound());
    cpu.timers_mut().set_sound_timer(0);
    cpu.cycle().unwrap();
    assert!(!cpu.should_play_sound());
}

#[test]
fn reset_keeps_what_is_attached_and_the_wraparound_mode() {
    let mut cpu = Cpu::new_with_config(&EmulatorBehaviorConfig::classic());
    cpu.set_display(Box::new(SoftwareDisplay::new()));
    cpu.load_rom(&[0xA0, 0x50, 0xD0, 0x05, 0xF1, 0x0A]).unwrap();
    cpu.cycle().unwrap();
    cpu.cycle().unwrap();
    cpu.cycle().unwrap();
    cpu.timers_mut().set_both_timers(9, 9);
    assert!(cpu.is_waiting_for_key());
    cpu.reset();
    assert!(!cpu.is_waiting_for_key());
    assert!(cpu.get_memory().get_wraparound());
    assert_eq!(cpu.get_memory().read_byte(0x200).unwrap(), 0);
    assert_eq!(cpu.get_memory().read_byte(0x50).unwrap(), 0xF0);
    assert_eq!(cpu.get_timers().get_both_timers(), (0, 0));
    assert_eq!(cpu.get_display_buffer().iter().filter(|&&on| on).count(), 14);
    let state = cpu.get_state();
    assert_eq!((state.pc, state.i, state.sp, state.instruction_count), (0x200, 0, 0, 0));
    assert!(state.stack_contents.is_empty());
    let mut plain = Cpu::new();
    plain.configure(&EmulatorBehaviorConfig::classic());
    assert!(plain.get_memory().get_wraparound());
}

#[test]
fn all_registers_survive_a_store_and_a_load() {
    let mut cpu = Cpu::new();
    for register in 0..16u8 {
        cpu.registers_mut().set_v(register, 0xF0 + register).unwrap();
    }
    cpu.registers_mut().set_i(0x300);
    cpu.execute_instruction(0xFF55).unwrap();
    let stored = cpu.get_state();
    for register in 0..16u8 {
        assert_eq!(cpu.get_memory().read_byte(0x300 + register as u16).unwrap(), 0xF0 + register);
        cpu.registers_mut().set_v(register, 0).unwrap();
    }
    cpu.execute_instruction(0xFF65).unwrap();
    assert_eq!(cpu.get_state().v, stored.v);
    assert_eq!(cpu.get_state().i, 0x300);
    assert_eq!(cpu.get_state().pc, stored.pc);
}

#[test]
fn subroutine_returns_behind_its_call() {
    let mut cpu = Cpu::new();
    cpu.load_rom(&[0x22, 0x04, 0x12, 0x02, 0x00, 0xEE]).unwrap();
    cpu.cycle().unwrap();
    assert_eq!(cpu.get_state().pc, 0x204);
    assert_eq!(cpu.get_state().stack_contents, vec![0x202]);
    cpu.cycle().unwrap();
    assert_eq!(cpu.get_state().pc, 0x202);
    assert!(cpu.get_state().stack_contents.is_empty());
    cpu.cycle().unwrap();
    assert_eq!(cpu.get_state().pc, 0x202);
    assert_eq!(cpu.get_state().instruction_count, 3);
}

#[test]
fn skip_on_key_down_follows_what_the_keypad_showed() {
    let mut cpu = Cpu::new();
    cpu.registers_mut().set_v(3, 0x5).unwrap();
    cpu.skip_if_down(3, None).unwrap();
    assert_eq!(cpu.get_state().pc, 0x200);
    cpu.skip_if_down(3, Some(false)).unwrap();
    assert_eq!(cpu.get_state().pc, 0x200);
    cpu.skip_if_down(3, Some(true)).unwrap();
    assert_eq!(cpu.get_state().pc, 0x202);
    assert!(matches!(
        cpu.skip_if_down(16, Some(true)),
        Err(EmulatorError::InvalidRegister { index: 16 })
    ));
    assert_eq!(cpu.get_state().pc, 0x202);
    assert_eq!(cpu.get_state().instruction_count, 0);
}

#[test]
fn skip_on_key_up_follows_what_the_keypad_showed() {
    // Without a keypad the instruction always skips.
    let mut cpu = Cpu::new();
    cpu.registers_mut().set_v(3, 0x5).unwrap();
    cpu.skip_if_up(3, None).unwrap();
    assert_eq!(cpu.get_state().pc, 0x202);
    cpu.skip_if_up(3, Some(true)).unwrap();
    assert_eq!(cpu.get_state().pc, 0x204);

    // With a keypad it skips unless the key was seen to be down.
    let mut cpu = Cpu::new();
    cpu.set_input(Rc::new(RefCell::new(SoftwareInput::new())));
    cpu.registers_mut().set_v(3, 0x5).unwrap();
    cpu.skip_if_up(3, Some(true)).unwrap();
    assert_eq!(cpu.get_state().pc, 0x200);
    cpu.skip_if_up(3, Some(false)).unwrap();
    assert_eq!(cpu.get_state().pc, 0x202);
    cpu.skip_if_up(3, None).unwrap();
    assert_eq!(cpu.get_state().pc, 0x204);

    // A number that names no key skips nothing.
    cpu.registers_mut().set_v(3, 0x10).unwrap();
    cpu.skip_if_up(3, None).unwrap();
    cpu.skip_if_up(3, Some(false)).unwrap();
    assert_eq!(cpu.get_state().pc, 0x204);
    assert!(matches!(
        cpu.skip_if_up(200, None),
        Err(EmulatorError::InvalidRegister { index: 200 })
    ));
    assert_eq!(cpu.get_state().pc, 0x204);
}

#[test]
fn a_press_is_noted_only_while_a_press_is_awaited() {
    let mut cpu = Cpu::new();
    cpu.note_press(Some(ChipKey::Key5));
    assert_eq!(cpu.key_wait(), KeyWait::NotWaiting);

    cpu.execute_instruction(0xF10A).unwrap();
    assert_eq!(cpu.key_wait(), KeyWait::Press { register: 1 });
    cpu.note_press(None);
    assert_eq!(cpu.key_wait(), KeyWait::Press { register: 1 });
    cpu.note_press(Some(ChipKey::Key5));
    assert_eq!(cpu.key_wait(), KeyWait::Release { register: 1, key: ChipKey::Key5 });
    cpu.note_press(Some(ChipKey::Key7));
    assert_eq!(cpu.key_wait(), KeyWait::Release { register: 1, key: ChipKey::Key5 });
    assert_eq!(cpu.get_state().v[1], 0);
    assert_eq!(cpu.get_state().pc, 0x200);
}

#[test]
fn a_release_is_noted_only_while_a_release_is_awaited() {
    let mut cpu = Cpu::new();
    cpu.note_release(false).unwrap();
    assert_eq!(cpu.key_wait(), KeyWait::NotWaiting);
    assert_eq!(cpu.get_state().v, [0; 16]);

    cpu.execute_instruction(0xFE0A).unwrap();
    cpu.note_release(false).unwrap();
    assert_eq!(cpu.key_wait(), KeyWait::Press { register: 0xE });
    assert_eq!(cpu.get_state().v, [0; 16]);

    cpu.note_press(Some(ChipKey::KeyB));
    cpu.note_release(true).unwrap();
    assert_eq!(cpu.key_wait(), KeyWait::Release { register: 0xE, key: ChipKey::KeyB });
    assert_eq!(cpu.get_state().v, [0; 16]);

    cpu.note_release(false).unwrap();
    assert_eq!(cpu.key_wait(), KeyWait::NotWaiting);
    assert_eq!(cpu.get_state().v[0xE], 0xB);
    assert_eq!(cpu.get_state().pc, 0x200);
    assert_eq!(cpu.get_state().instruction_count, 0);
}

#[test]
fn waiting_cycles_succeed_and_execute_nothing() {
    let keypad = Rc::new(RefCell::new(SoftwareInput::new()));
    let mut cpu = Cpu::new();
    cpu.set_input(keypad.clone());
    cpu.load_rom(&[0xFF, 0x0A, 0xFF, 0xFF]).unwrap();
    cpu.cycle().unwrap();
    let waiting = cpu.get_state();
    assert_eq!((waiting.pc, waiting.instruction_count), (0x202, 1));
    for step in 0..6 {
        if step == 2 {
            keypad.borrow_mut().press_key(ChipKey::Key9);
        }
        if step == 4 {
            keypad.borrow_mut().release_key(ChipKey::Key9);
        }
        assert!(cpu.is_waiting_for_key());
        cpu.cycle().unwrap();
        let state = cpu.get_state();
        assert_eq!((state.pc, state.instruction_count), (0x202, 1));
        assert_eq!(state.stack_contents, waiting.stack_contents);
        assert_eq!(cpu.get_memory().read_word(0x200).unwrap(), 0xFF0A);
        if step < 4 {
            assert_eq!(state.v, waiting.v);
        } else if step == 4 {
            assert_eq!(state.v[0xF], 9);
            assert!(!cpu.is_waiting_for_key());
            break;
        }
    }
    assert!(matches!(
        cpu.cycle(),
        Err(EmulatorError::UnknownInstruction { opcode: 0xFFFF })
    ));
}
