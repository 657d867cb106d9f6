use chip8::cartridge::Cartridge;
use chip8::cpu::{Fault, CPU};

fn boot(rom: &[u8]) -> CPU {
    CPU::new(Cartridge::new(rom))
}

#[test]
fn can_instantiate_cartridge() {
    let cartridge = Cartridge::new(&[2, 3, 4, 5]);
    assert_eq!(cartridge.get_memory().len(), 4);
}

#[test]
fn calculates_instruction_from_bytes() {
    let instruction = CPU::calculate_instruction(0xA2, 0xF0);
    assert_eq!(instruction, 0xA2F0);
}

#[test]
fn decrements_timers() {
    let mut cpu = boot(&[2, 3, 4, 5]);
    cpu.set_sound_timer(4);
    let _ = cpu.tick(0);

    assert_eq!(cpu.get_sound_timer(), 3);
}

#[test]
fn does_not_decrement_timers_at_0() {
    let mut cpu = boot(&[2, 3, 4, 5]);
    let _ = cpu.tick(0);

    assert_eq!(cpu.get_sound_timer(), 0);
    assert_eq!(cpu.get_delay_timer(), 0);
}

#[test]
fn testy_test() {
    let total = 266 as u16;

    println!("(total & 0xFF) as u8: {}", (total & 0xFF) as u8);
    println!("total as u8: {}", total as u8);
    assert!(true)
}

#[test]
fn load_and_add_with_wraparound() {
    let mut cpu = boot(&[0x6A, 0x12, 0x7A, 0x05]);
    let _ = cpu.tick(0);
    assert_eq!(cpu.get_register(10), 0x12);
    let _ = cpu.tick(0);
    assert_eq!(cpu.get_register(10), 0x17);

    let mut cpu = boot(&[0x6A, 0xFF, 0x7A, 0x01]);
    let _ = cpu.tick(0);
    let _ = cpu.tick(0);
    assert_eq!(cpu.get_register(10), 0x00);
}

#[test]
fn add_registers_sets_carry_flag() {
    let mut cpu = boot(&[0x6A, 0xFF, 0x6B, 0x01, 0x8A, 0xB4]);
    let _ = cpu.tick(0);
    let _ = cpu.tick(0);
    let _ = cpu.tick(0);
    assert_eq!(cpu.get_register(10), 0x00);
    assert_eq!(cpu.get_register(0xF), 1);

    let mut cpu = boot(&[0x6A, 0x01, 0x6B, 0x01, 0x8A, 0xB4]);
    let _ = cpu.tick(0);
    let _ = cpu.tick(0);
    let _ = cpu.tick(0);
    assert_eq!(cpu.get_register(10), 0x02);
    assert_eq!(cpu.get_register(0xF), 0);
}

#[test]
fn call_and_return_restore_the_program_counter() {
    let mut rom = vec![0u8; 0x102];
    rom[0] = 0x23;
    rom[1] = 0x00;
    rom[0x100] = 0x00;
    rom[0x101] = 0xEE;
    let mut cpu = boot(&rom);

    assert_eq!(cpu.get_stack_depth(), 0);
    let _ = cpu.tick(0);
    assert_eq!(cpu.get_program_counter(), 0x300);
    assert_eq!(cpu.get_stack_depth(), 1);
    let _ = cpu.tick(0);
    assert_eq!(cpu.get_program_counter(), 0x202);
    assert_eq!(cpu.get_stack_depth(), 0);
}

#[test]
fn subtraction_flags_use_strict_greater_than() {
    let mut cpu = boot(&[0x6A, 0x05, 0x6B, 0x05, 0x8A, 0xB5]);
    let _ = cpu.tick(0);
    let _ = cpu.tick(0);
    let _ = cpu.tick(0);
    assert_eq!(cpu.get_register(10), 0);
    assert_eq!(cpu.get_register(0xF), 0);

    let mut cpu = boot(&[0x6A, 0x07, 0x6B, 0x05, 0x8A, 0xB5]);
    let _ = cpu.tick(0);
    let _ = cpu.tick(0);
    let _ = cpu.tick(0);
    assert_eq!(cpu.get_register(10), 2);
    assert_eq!(cpu.get_register(0xF), 1);

    let mut cpu = boot(&[0x6A, 0x05, 0x6B, 0x07, 0x8A, 0xB7]);
    let _ = cpu.tick(0);
    let _ = cpu.tick(0);
    let _ = cpu.tick(0);
    assert_eq!(cpu.get_register(10), 2);
    assert_eq!(cpu.get_register(0xF), 1);
}

#[test]
fn shifts_report_the_moved_out_bit() {
    let mut cpu = boot(&[0x6A, 0x05, 0x8A, 0x06]);
    let _ = cpu.tick(0);
    let _ = cpu.tick(0);
    assert_eq!(cpu.get_register(10), 2);
    assert_eq!(cpu.get_register(0xF), 1);

    let mut cpu = boot(&[0x6A, 0x81, 0x8A, 0x0E]);
    let _ = cpu.tick(0);
    let _ = cpu.tick(0);
    assert_eq!(cpu.get_register(10), 2);
    assert_eq!(cpu.get_register(0xF), 1);
}

#[test]
fn conditional_skips_take_and_fall_through() {
    let mut cpu = boot(&[0x6A, 0x05, 0x3A, 0x05]);
    let _ = cpu.tick(0);
    let _ = cpu.tick(0);
    assert_eq!(cpu.get_program_counter(), 0x206);

    let mut cpu = boot(&[0x6A, 0x05, 0x3A, 0x06]);
    let _ = cpu.tick(0);
    let _ = cpu.tick(0);
    assert_eq!(cpu.get_program_counter(), 0x204);
}

#[test]
fn jump_with_offset_adds_register_zero() {
    let mut cpu = boot(&[0x60, 0x10, 0xB3, 0x00]);
    let _ = cpu.tick(0);
    let _ = cpu.tick(0);
    assert_eq!(cpu.get_program_counter(), 0x310);
}

#[test]
fn random_instruction_masks_the_supplied_byte() {
    let mut cpu = boot(&[0xCA, 0x0F]);
    let _ = cpu.tick(0xAB);
    assert_eq!(cpu.get_register(10), 0x0B);
}

#[test]
fn draw_through_the_cpu_sets_the_collision_flag() {
    // Draw the glyph for digit 0 twice at (0, 0): the second draw erases it
    // and raises the collision flag.
    let rom = [0xF0u8, 0x29, 0xD0, 0x05, 0xD0, 0x05];
    let mut cpu = boot(&rom);
    let _ = cpu.tick(0);
    let result = cpu.tick(0).unwrap();
    assert!(result.display_state.iter().any(|&b| b == 1));
    assert_eq!(cpu.get_register(0xF), 0);
    let result = cpu.tick(0).unwrap();
    assert!(result.display_state.iter().all(|&b| b == 0));
    assert_eq!(cpu.get_register(0xF), 1);
    assert_eq!(result.display_state.len(), 2048);
}

#[test]
fn wait_for_key_blocks_until_a_key_arrives() {
    let mut cpu = boot(&[0xFA, 0x0A]);
    let _ = cpu.tick(0);
    assert_eq!(cpu.get_program_counter(), 0x200);
    let _ = cpu.tick(0);
    assert_eq!(cpu.get_program_counter(), 0x200);
    cpu.gamepad_down("a");
    let _ = cpu.tick(0);
    assert_eq!(cpu.get_register(10), 8);
    assert_eq!(cpu.get_program_counter(), 0x202);
}

#[test]
fn key_skips_consult_the_gamepad() {
    let mut cpu = boot(&[0x6A, 0x08, 0xEA, 0x9E]);
    cpu.gamepad_down("a");
    let _ = cpu.tick(0);
    let _ = cpu.tick(0);
    assert_eq!(cpu.get_program_counter(), 0x206);

    let mut cpu = boot(&[0x6A, 0x08, 0xEA, 0xA1]);
    let _ = cpu.tick(0);
    let _ = cpu.tick(0);
    assert_eq!(cpu.get_program_counter(), 0x206);
}

#[test]
fn bcd_store_writes_three_digits() {
    let mut cpu = boot(&[0xA3, 0x00, 0x6A, 0x9C, 0xFA, 0x33]);
    let _ = cpu.tick(0);
    let _ = cpu.tick(0);
    let _ = cpu.tick(0);
    assert_eq!(cpu.get_memory_byte(0x300), 1);
    assert_eq!(cpu.get_memory_byte(0x301), 5);
    assert_eq!(cpu.get_memory_byte(0x302), 6);
}

#[test]
fn register_dump_and_load_round_trip() {
    let rom = [
        0xA3, 0x00, // index := 0x300
        0x60, 0x0A, // V0 := 10
        0x61, 0x0B, // V1 := 11
        0xF1, 0x55, // memory[0x300..=0x301] := V0..=V1
        0x60, 0x00, // V0 := 0
        0x61, 0x00, // V1 := 0
        0xF1, 0x65, // V0..=V1 := memory[0x300..=0x301]
    ];
    let mut cpu = boot(&rom);
    for _ in 0..4 {
        let _ = cpu.tick(0);
    }
    assert_eq!(cpu.get_memory_byte(0x300), 10);
    assert_eq!(cpu.get_memory_byte(0x301), 11);
    for _ in 0..3 {
        let _ = cpu.tick(0);
    }
    assert_eq!(cpu.get_register(0), 10);
    assert_eq!(cpu.get_register(1), 11);
}

#[test]
fn timer_instructions_move_values_both_ways() {
    let mut cpu = boot(&[0x6A, 0x09, 0xFA, 0x15, 0x6B, 0x00, 0xFB, 0x07]);
    let _ = cpu.tick(0);
    let _ = cpu.tick(0);
    assert_eq!(cpu.get_delay_timer(), 9);
    let _ = cpu.tick(0);
    let _ = cpu.tick(0);
    // The delay timer ticked down twice more before being read.
    assert_eq!(cpu.get_register(11), 7);
}

#[test]
fn sound_timer_drives_the_beep_flag() {
    let mut cpu = boot(&[0x6A, 0x02, 0xFA, 0x18, 0x00, 0x00, 0x00, 0x00]);
    let result = cpu.tick(0).unwrap();
    assert!(!result.should_beep);
    // The store runs after this step's decrement, so the flag is up at once.
    let result = cpu.tick(0).unwrap();
    assert!(result.should_beep);
    let result = cpu.tick(0).unwrap();
    assert!(result.should_beep);
    let result = cpu.tick(0).unwrap();
    assert!(!result.should_beep);
}

#[test]
fn font_glyphs_sit_at_the_bottom_of_memory() {
    let mut cpu = boot(&[0x6A, 0x07, 0xFA, 0x29]);
    let _ = cpu.tick(0);
    let _ = cpu.tick(0);
    assert_eq!(cpu.get_index(), 35);
    let glyph_zero = [0xF0, 0x90, 0x90, 0x90, 0xF0];
    for (offset, &byte) in glyph_zero.iter().enumerate() {
        assert_eq!(cpu.get_memory_byte(offset), byte);
    }
}

#[test]
fn index_additions_accumulate() {
    let mut cpu = boot(&[0xA3, 0x00, 0x6A, 0x10, 0xFA, 0x1E]);
    let _ = cpu.tick(0);
    let _ = cpu.tick(0);
    let _ = cpu.tick(0);
    assert_eq!(cpu.get_index(), 0x310);
}

#[test]
fn unknown_opcode_is_a_no_op_that_advances() {
    let mut cpu = boot(&[0x02, 0x03, 0x8A, 0xB8]);
    let _ = cpu.tick(0);
    assert_eq!(cpu.get_program_counter(), 0x202);
    let _ = cpu.tick(0);
    assert_eq!(cpu.get_program_counter(), 0x204);
    for idx in 0..16 {
        assert_eq!(cpu.get_register(idx), 0);
    }
}

#[test]
fn returning_with_an_empty_stack_is_a_fault() {
    let mut cpu = boot(&[0x00, 0xEE]);
    assert_eq!(cpu.tick(0).unwrap_err(), Fault::StackUnderflow);
    assert_eq!(cpu.get_program_counter(), 0x200);
}

#[test]
fn seventeen_nested_calls_overflow_the_stack() {
    // A call to its own address pushes one return address per step.
    let mut cpu = boot(&[0x22, 0x00]);
    for _ in 0..16 {
        assert!(cpu.tick(0).is_ok());
    }
    assert_eq!(cpu.get_stack_depth(), 16);
    assert_eq!(cpu.tick(0).unwrap_err(), Fault::StackOverflow);
    assert_eq!(cpu.get_stack_depth(), 16);
}

#[test]
fn data_access_past_memory_is_a_fault() {
    let mut cpu = boot(&[0xAF, 0xFF, 0xFA, 0x33]);
    let _ = cpu.tick(0);
    assert_eq!(cpu.tick(0).unwrap_err(), Fault::MemoryOutOfRange);

    let mut cpu = boot(&[0xAF, 0xFF, 0xD0, 0x02]);
    let _ = cpu.tick(0);
    assert_eq!(cpu.tick(0).unwrap_err(), Fault::MemoryOutOfRange);
}

#[test]
fn fetch_past_memory_is_a_fault() {
    let mut cpu = boot(&[0x1F, 0xFF]);
    let _ = cpu.tick(0);
    assert_eq!(cpu.get_program_counter(), 0xFFF);
    assert_eq!(cpu.tick(0).unwrap_err(), Fault::MemoryOutOfRange);
    assert_eq!(cpu.get_program_counter(), 0xFFF);
}
