use chip8_core::{Emu, Error};

fn machine(program: &[u8]) -> Emu {
    let mut emu = Emu::new();
    emu.load(program);
    emu
}

fn run(emu: &mut Emu, ticks: usize) {
    for _ in 0..ticks {
        assert_eq!(emu.tick(), Ok(()));
    }
}

fn lit(emu: &Emu) -> Vec<(usize, usize)> {
    let display = emu.get_display();
    let mut pixels = Vec::new();
    for y in 0..32 {
        for x in 0..64 {
            if display[x + 64 * y] {
                pixels.push((x, y));
            }
        }
    }
    pixels
}

#[test]
fn nop_only_moves_on() {
    let mut emu = machine(&[0x00, 0x00]);
    run(&mut emu, 1);
    assert_eq!(emu.program_counter(), 0x202);
    assert_eq!(emu.registers(), &[0u8; 16][..]);
    assert_eq!(emu.stack_depth(), 0);
}

#[test]
fn jump_sets_the_program_counter() {
    let mut emu = machine(&[0x1A, 0xBC]);
    run(&mut emu, 1);
    assert_eq!(emu.program_counter(), 0xABC);
    assert_eq!(emu.stack_depth(), 0);
}

#[test]
fn call_and_return_resume_after_the_call() {
    let mut program = vec![0u8; 0x102];
    program[0] = 0x23;
    program[1] = 0x00;
    program[0x100] = 0x00;
    program[0x101] = 0xEE;
    let mut emu = machine(&program);
    run(&mut emu, 1);
    assert_eq!(emu.program_counter(), 0x300);
    assert_eq!(emu.stack_depth(), 1);
    run(&mut emu, 1);
    assert_eq!(emu.program_counter(), 0x202);
    assert_eq!(emu.stack_depth(), 0);
}

#[test]
fn call_sixteen_deep_succeeds_and_the_next_overflows() {
    // A subroutine that calls itself.
    let mut emu = machine(&[0x22, 0x00]);
    for depth in 1..=16 {
        assert_eq!(emu.tick(), Ok(()));
        assert_eq!(emu.stack_depth(), depth);
        assert_eq!(emu.program_counter(), 0x200);
    }
    assert_eq!(emu.tick(), Err(Error::StackOverflow));
    assert_eq!(emu.stack_depth(), 16);
    assert_eq!(emu.program_counter(), 0x202);
}

#[test]
fn nested_calls_return_in_reverse_order() {
    let mut program = vec![0u8; 0x204];
    // 0x200: call 0x300
    program[0] = 0x23;
    program[1] = 0x00;
    // 0x300: call 0x400; 0x302: return
    program[0x100] = 0x24;
    program[0x101] = 0x00;
    program[0x102] = 0x00;
    program[0x103] = 0xEE;
    // 0x400: return
    program[0x200] = 0x00;
    program[0x201] = 0xEE;
    let mut emu = machine(&program);
    run(&mut emu, 2);
    assert_eq!((emu.program_counter(), emu.stack_depth()), (0x400, 2));
    run(&mut emu, 1);
    assert_eq!((emu.program_counter(), emu.stack_depth()), (0x302, 1));
    run(&mut emu, 1);
    assert_eq!((emu.program_counter(), emu.stack_depth()), (0x202, 0));
}

#[test]
fn return_without_a_call_underflows() {
    let mut emu = machine(&[0x00, 0xEE]);
    assert_eq!(emu.tick(), Err(Error::StackUnderflow));
    assert_eq!(emu.stack_depth(), 0);
    assert_eq!(emu.program_counter(), 0x202);
}

#[test]
fn skip_if_equal_to_byte() {
    let mut emu = machine(&[0x65, 0x42, 0x35, 0x42]);
    run(&mut emu, 2);
    assert_eq!(emu.program_counter(), 0x206);
    let mut emu = machine(&[0x65, 0x42, 0x35, 0x43]);
    run(&mut emu, 2);
    assert_eq!(emu.program_counter(), 0x204);
}

#[test]
fn skip_if_not_equal_to_byte() {
    let mut emu = machine(&[0x65, 0x42, 0x45, 0x43]);
    run(&mut emu, 2);
    assert_eq!(emu.program_counter(), 0x206);
    let mut emu = machine(&[0x65, 0x42, 0x45, 0x42]);
    run(&mut emu, 2);
    assert_eq!(emu.program_counter(), 0x204);
}

#[test]
fn skip_if_registers_equal() {
    let mut emu = machine(&[0x61, 0x09, 0x62, 0x09, 0x51, 0x20]);
    run(&mut emu, 3);
    assert_eq!(emu.program_counter(), 0x208);
    let mut emu = machine(&[0x61, 0x09, 0x62, 0x08, 0x51, 0x20]);
    run(&mut emu, 3);
    assert_eq!(emu.program_counter(), 0x206);
}

#[test]
fn skip_if_registers_differ() {
    let mut emu = machine(&[0x61, 0x09, 0x62, 0x08, 0x91, 0x20]);
    run(&mut emu, 3);
    assert_eq!(emu.program_counter(), 0x208);
    let mut emu = machine(&[0x61, 0x09, 0x62, 0x09, 0x91, 0x20]);
    run(&mut emu, 3);
    assert_eq!(emu.program_counter(), 0x206);
}

#[test]
fn load_immediate_sets_the_register_to_the_byte() {
    for x in 0..16u8 {
        for nn in [0x00u8, 0x01, 0x7F, 0x80, 0xFF] {
            let mut emu = machine(&[0x60 | x, nn]);
            run(&mut emu, 1);
            let mut expected = [0u8; 16];
            expected[x as usize] = nn;
            assert_eq!(emu.registers(), &expected[..]);
            assert_eq!(emu.program_counter(), 0x202);
        }
    }
}

#[test]
fn add_immediate_wraps_and_leaves_the_flag() {
    let mut emu = machine(&[0x63, 250, 0x73, 10]);
    run(&mut emu, 2);
    assert_eq!(emu.registers()[3], 4);
    assert_eq!(emu.registers()[15], 0);

    // With the flag register set before, it stays set.
    let mut emu = machine(&[0x6F, 0x01, 0x63, 250, 0x73, 10]);
    run(&mut emu, 3);
    assert_eq!(emu.registers()[3], 4);
    assert_eq!(emu.registers()[15], 1);
}

#[test]
fn add_immediate_without_wrap() {
    let mut emu = machine(&[0x63, 20, 0x73, 22]);
    run(&mut emu, 2);
    assert_eq!(emu.registers()[3], 42);
}

#[test]
fn move_copies_a_register() {
    let mut emu = machine(&[0x62, 0x5A, 0x81, 0x20]);
    run(&mut emu, 2);
    assert_eq!(emu.registers()[1], 0x5A);
    assert_eq!(emu.registers()[2], 0x5A);
}

#[test]
fn or_and_xor_combine_bitwise() {
    let mut emu = machine(&[0x61, 0b1100_1010, 0x62, 0b1010_0110, 0x81, 0x21]);
    run(&mut emu, 3);
    assert_eq!(emu.registers()[1], 0b1110_1110);

    let mut emu = machine(&[0x61, 0b1100_1010, 0x62, 0b1010_0110, 0x81, 0x22]);
    run(&mut emu, 3);
    assert_eq!(emu.registers()[1], 0b1000_0010);

    let mut emu = machine(&[0x61, 0b1100_1010, 0x62, 0b1010_0110, 0x81, 0x23]);
    run(&mut emu, 3);
    assert_eq!(emu.registers()[1], 0b0110_1100);
    assert_eq!(emu.registers()[2], 0b1010_0110);
    assert_eq!(emu.registers()[15], 0);
}

#[test]
fn add_registers_with_overflow_clears_the_flag() {
    let mut emu = machine(&[0x61, 200, 0x62, 100, 0x81, 0x24]);
    run(&mut emu, 3);
    assert_eq!(emu.registers()[1], 44);
    assert_eq!(emu.registers()[15], 0);
}

#[test]
fn add_registers_without_overflow_sets_the_flag() {
    let mut emu = machine(&[0x61, 10, 0x62, 20, 0x81, 0x24]);
    run(&mut emu, 3);
    assert_eq!(emu.registers()[1], 30);
    assert_eq!(emu.registers()[15], 1);
}

#[test]
fn add_registers_at_the_edge_of_a_byte() {
    let mut emu = machine(&[0x61, 255, 0x62, 0, 0x81, 0x24]);
    run(&mut emu, 3);
    assert_eq!((emu.registers()[1], emu.registers()[15]), (255, 1));
    let mut emu = machine(&[0x61, 255, 0x62, 1, 0x81, 0x24]);
    run(&mut emu, 3);
    assert_eq!((emu.registers()[1], emu.registers()[15]), (0, 0));
}

#[test]
fn add_into_the_flag_register_keeps_the_flag() {
    // vF = 200, v2 = 100: the sum goes to vF first, then the flag.
    let mut emu = machine(&[0x6F, 200, 0x62, 100, 0x8F, 0x24]);
    run(&mut emu, 3);
    assert_eq!(emu.registers()[15], 0);
    let mut emu = machine(&[0x6F, 10, 0x62, 20, 0x8F, 0x24]);
    run(&mut emu, 3);
    assert_eq!(emu.registers()[15], 1);
}

#[test]
fn sub_registers_with_borrow_clears_the_flag() {
    let mut emu = machine(&[0x61, 5, 0x62, 10, 0x81, 0x25]);
    run(&mut emu, 3);
    assert_eq!(emu.registers()[1], 251);
    assert_eq!(emu.registers()[15], 0);
}

#[test]
fn sub_registers_without_borrow_sets_the_flag() {
    let mut emu = machine(&[0x61, 10, 0x62, 5, 0x81, 0x25]);
    run(&mut emu, 3);
    assert_eq!(emu.registers()[1], 5);
    assert_eq!(emu.registers()[15], 1);
    let mut emu = machine(&[0x61, 7, 0x62, 7, 0x81, 0x25]);
    run(&mut emu, 3);
    assert_eq!((emu.registers()[1], emu.registers()[15]), (0, 1));
}

#[test]
fn sub_from_subtracts_the_other_way() {
    let mut emu = machine(&[0x61, 5, 0x62, 10, 0x81, 0x27]);
    run(&mut emu, 3);
    assert_eq!((emu.registers()[1], emu.registers()[15]), (5, 1));
    let mut emu = machine(&[0x61, 10, 0x62, 5, 0x81, 0x27]);
    run(&mut emu, 3);
    assert_eq!((emu.registers()[1], emu.registers()[15]), (251, 0));
    assert_eq!(emu.registers()[2], 5);
}

#[test]
fn shift_right_drops_the_low_bit_into_the_flag() {
    let mut emu = machine(&[0x61, 0b1000_0101, 0x62, 0xFF, 0x81, 0x26]);
    run(&mut emu, 3);
    assert_eq!((emu.registers()[1], emu.registers()[15]), (0b0100_0010, 1));
    assert_eq!(emu.registers()[2], 0xFF);
    let mut emu = machine(&[0x61, 0b1000_0100, 0x81, 0x26]);
    run(&mut emu, 2);
    assert_eq!((emu.registers()[1], emu.registers()[15]), (0b0100_0010, 0));
}

#[test]
fn shift_left_drops_the_high_bit_into_the_flag() {
    let mut emu = machine(&[0x61, 0b1000_0101, 0x62, 0xFF, 0x81, 0x2E]);
    run(&mut emu, 3);
    assert_eq!((emu.registers()[1], emu.registers()[15]), (0b0000_1010, 1));
    assert_eq!(emu.registers()[2], 0xFF);
    let mut emu = machine(&[0x61, 0b0100_0101, 0x81, 0x2E]);
    run(&mut emu, 2);
    assert_eq!((emu.registers()[1], emu.registers()[15]), (0b1000_1010, 0));
}

#[test]
fn load_index_sets_the_index_register() {
    let mut emu = machine(&[0xAF, 0xED]);
    run(&mut emu, 1);
    assert_eq!(emu.index_register(), 0xFED);
}

#[test]
fn jump_offset_adds_register_zero() {
    let mut emu = machine(&[0x60, 0x12, 0x61, 0xFF, 0xB3, 0x00]);
    run(&mut emu, 3);
    assert_eq!(emu.program_counter(), 0x312);
    let mut emu = machine(&[0x60, 0xFF, 0xBF, 0xFF]);
    run(&mut emu, 2);
    assert_eq!(emu.program_counter(), 0x10FE);
}

#[test]
fn random_masks_the_byte_it_is_given() {
    let mut emu = machine(&[0xC4, 0x3C]);
    assert_eq!(emu.tick_with(0xA5), Ok(()));
    assert_eq!(emu.registers()[4], 0x24);
    assert_eq!(emu.program_counter(), 0x202);
    let mut emu = machine(&[0xC4, 0xFF]);
    assert_eq!(emu.tick_with(0xA5), Ok(()));
    assert_eq!(emu.registers()[4], 0xA5);
}

#[test]
fn random_stays_within_the_mask() {
    let mut program = Vec::new();
    for _ in 0..200 {
        program.push(0xC4);
        program.push(0x0F);
        program.push(0xC5);
        program.push(0x00);
    }
    let mut emu = machine(&program);
    for _ in 0..200 {
        run(&mut emu, 2);
        assert!(emu.registers()[4] <= 0x0F);
        assert_eq!(emu.registers()[5], 0);
    }
}

#[test]
fn tick_with_ignores_the_byte_for_other_instructions() {
    let mut a = machine(&[0x61, 0x07, 0x71, 0x01, 0xA1, 0x23]);
    let mut b = machine(&[0x61, 0x07, 0x71, 0x01, 0xA1, 0x23]);
    for _ in 0..3 {
        assert_eq!(a.tick_with(0x00), Ok(()));
        assert_eq!(b.tick_with(0xFF), Ok(()));
    }
    assert_eq!(a.registers(), b.registers());
    assert_eq!(a.registers()[1], 8);
    assert_eq!(a.index_register(), b.index_register());
    assert_eq!(a.program_counter(), b.program_counter());
}

#[test]
fn clear_screen_blanks_the_display() {
    // Draw glyph 0 at (0, 0), then clear.
    let mut emu = machine(&[0xD0, 0x05, 0x00, 0xE0]);
    run(&mut emu, 1);
    assert_eq!(lit(&emu).len(), 14);
    run(&mut emu, 1);
    assert!(emu.get_display().iter().all(|p| !*p));
    assert_eq!(emu.program_counter(), 0x204);
}

#[test]
fn draw_lights_the_set_bits_left_to_right() {
    // v0 = 5, v1 = 6, draw one row of glyph 0 (0xF0).
    let mut emu = machine(&[0x60, 5, 0x61, 6, 0xD0, 0x11]);
    run(&mut emu, 3);
    assert_eq!(lit(&emu), vec![(5, 6), (6, 6), (7, 6), (8, 6)]);
    assert_eq!(emu.registers()[15], 0);
}

#[test]
fn draw_twice_puts_the_pixels_out_and_reports_it() {
    let mut emu = machine(&[0x60, 5, 0x61, 6, 0xD0, 0x11, 0xD0, 0x11]);
    run(&mut emu, 3);
    assert_eq!(lit(&emu), vec![(5, 6), (6, 6), (7, 6), (8, 6)]);
    assert_eq!(emu.registers()[15], 0);
    run(&mut emu, 1);
    assert_eq!(lit(&emu), vec![]);
    assert_eq!(emu.registers()[15], 1);
}

#[test]
fn draw_draws_each_row_below_the_last() {
    // Glyph 1 is 0x20, 0x60, 0x20, 0x20, 0x70; I = 5.
    let mut emu = machine(&[0xA0, 0x05, 0xD0, 0x05]);
    run(&mut emu, 2);
    assert_eq!(
        lit(&emu),
        vec![(2, 0), (1, 1), (2, 1), (2, 2), (2, 3), (1, 4), (2, 4), (3, 4)]
    );
}

#[test]
fn draw_reads_all_eight_bits_of_a_row() {
    // Store 0xFF and 0x01 at 0x300 and draw them as a sprite.
    let mut emu = machine(&[0x60, 0xFF, 0x61, 0x01, 0xA3, 0x00, 0xF1, 0x55, 0x62, 0x00, 0xD2, 0x22]);
    run(&mut emu, 6);
    assert_eq!(
        lit(&emu),
        vec![(0, 0), (1, 0), (2, 0), (3, 0), (4, 0), (5, 0), (6, 0), (7, 0), (7, 1)]
    );
}

#[test]
fn draw_wraps_each_pixel_around_the_edges() {
    // Two rows of glyph 0 (0xF0, 0x90) at (62, 31).
    let mut emu = machine(&[0x60, 62, 0x61, 31, 0xD0, 0x12]);
    run(&mut emu, 3);
    assert_eq!(lit(&emu), vec![(1, 0), (62, 0), (0, 31), (1, 31), (62, 31), (63, 31)]);
    assert_eq!(emu.registers()[15], 0);
}

#[test]
fn draw_wraps_coordinates_beyond_the_display() {
    // (64 + 3, 32 + 2) is (3, 2).
    let mut emu = machine(&[0x60, 67, 0x61, 34, 0xD0, 0x11]);
    run(&mut emu, 3);
    assert_eq!(lit(&emu), vec![(3, 2), (4, 2), (5, 2), (6, 2)]);
    // (255, 255) is (63, 31).
    let mut emu = machine(&[0x60, 255, 0x61, 255, 0xD0, 0x11]);
    run(&mut emu, 3);
    assert_eq!(lit(&emu), vec![(0, 31), (1, 31), (2, 31), (63, 31)]);
}

#[test]
fn draw_reports_a_collision_only_where_a_lit_pixel_went_out() {
    // Row 0xF0 at (0, 0), then row 0x90 of the same glyph at (4, 0): no
    // overlap. Then row 0xF0 at (3, 0): overlaps (3, 0) and (4, 0).
    let mut emu = machine(&[
        0xD0, 0x01, 0x62, 4, 0xA0, 0x01, 0xD2, 0x01, 0x62, 3, 0xA0, 0x00, 0xD2, 0x01,
    ]);
    run(&mut emu, 1);
    assert_eq!(lit(&emu), vec![(0, 0), (1, 0), (2, 0), (3, 0)]);
    run(&mut emu, 3);
    assert_eq!(lit(&emu), vec![(0, 0), (1, 0), (2, 0), (3, 0), (4, 0), (7, 0)]);
    assert_eq!(emu.registers()[15], 0);
    run(&mut emu, 3);
    assert_eq!(lit(&emu), vec![(0, 0), (1, 0), (2, 0), (5, 0), (6, 0), (7, 0)]);
    assert_eq!(emu.registers()[15], 1);
}

#[test]
fn draw_of_no_rows_clears_the_flag_only() {
    let mut emu = machine(&[0x6F, 0x01, 0xD0, 0x00]);
    run(&mut emu, 2);
    assert_eq!(lit(&emu), vec![]);
    assert_eq!(emu.registers()[15], 0);
}

#[test]
fn draw_of_an_empty_sprite_twice_reports_no_collision() {
    // Memory at 0x300 is zero.
    let mut emu = machine(&[0xA3, 0x00, 0xD0, 0x01, 0xD0, 0x01]);
    run(&mut emu, 3);
    assert_eq!(lit(&emu), vec![]);
    assert_eq!(emu.registers()[15], 0);
}

#[test]
fn draw_past_the_end_of_memory_fails() {
    let mut emu = machine(&[0xAF, 0xFF, 0xD0, 0x02]);
    run(&mut emu, 1);
    assert_eq!(emu.tick(), Err(Error::OutOfBoundsAccess));
    assert_eq!(lit(&emu), vec![]);
    assert_eq!(emu.program_counter(), 0x204);
    // One row still fits.
    let mut emu = machine(&[0xAF, 0xFF, 0xD0, 0x01]);
    run(&mut emu, 2);
}

#[test]
fn skip_if_key_down() {
    let mut emu = machine(&[0x63, 0x0A, 0xE3, 0x9E]);
    emu.key_pressed(0xA, true);
    run(&mut emu, 2);
    assert_eq!(emu.program_counter(), 0x206);
    let mut emu = machine(&[0x63, 0x0A, 0xE3, 0x9E]);
    emu.key_pressed(0xB, true);
    run(&mut emu, 2);
    assert_eq!(emu.program_counter(), 0x204);
}

#[test]
fn skip_if_key_up() {
    let mut emu = machine(&[0x63, 0x0A, 0xE3, 0xA1]);
    run(&mut emu, 2);
    assert_eq!(emu.program_counter(), 0x206);
    let mut emu = machine(&[0x63, 0x0A, 0xE3, 0xA1]);
    emu.key_pressed(0xA, true);
    run(&mut emu, 2);
    assert_eq!(emu.program_counter(), 0x204);
}

#[test]
fn key_instructions_fail_on_a_key_that_does_not_exist() {
    let mut emu = machine(&[0x63, 0x10, 0xE3, 0x9E]);
    run(&mut emu, 1);
    assert_eq!(emu.tick(), Err(Error::InvalidKey));
    assert_eq!(emu.program_counter(), 0x204);
    let mut emu = machine(&[0x63, 0xFF, 0xE3, 0xA1]);
    run(&mut emu, 1);
    assert_eq!(emu.tick(), Err(Error::InvalidKey));
    assert_eq!(emu.program_counter(), 0x204);
}

#[test]
fn wait_key_holds_until_a_key_is_pressed() {
    let mut emu = machine(&[0xF6, 0x0A, 0x00, 0x00]);
    for _ in 0..5 {
        assert_eq!(emu.tick(), Ok(()));
        assert_eq!(emu.program_counter(), 0x200);
        assert_eq!(emu.registers(), &[0u8; 16][..]);
    }
    emu.key_pressed(0xB, true);
    assert_eq!(emu.tick(), Ok(()));
    assert_eq!(emu.registers()[6], 0xB);
    assert_eq!(emu.program_counter(), 0x202);
    assert_eq!(emu.tick(), Ok(()));
    assert_eq!(emu.program_counter(), 0x204);
}

#[test]
fn wait_key_takes_the_lowest_key_that_is_down() {
    let mut emu = machine(&[0xF6, 0x0A]);
    emu.key_pressed(0xC, true);
    emu.key_pressed(0x3, true);
    emu.key_pressed(0x9, true);
    run(&mut emu, 1);
    assert_eq!(emu.registers()[6], 0x3);
    assert_eq!(emu.program_counter(), 0x202);
}

#[test]
fn wait_key_sees_key_zero() {
    let mut emu = machine(&[0x61, 0x55, 0xF1, 0x0A]);
    emu.key_pressed(0, true);
    run(&mut emu, 2);
    assert_eq!(emu.registers()[1], 0);
    assert_eq!(emu.program_counter(), 0x204);
}

#[test]
fn delay_timer_is_set_and_read() {
    let mut emu = machine(&[0x61, 0x2C, 0xF1, 0x15, 0xF2, 0x07]);
    run(&mut emu, 2);
    assert_eq!(emu.delay_timer(), 0x2C);
    emu.tick_timers();
    run(&mut emu, 1);
    assert_eq!(emu.registers()[2], 0x2B);
    assert_eq!(emu.sound_timer(), 0);
}

#[test]
fn sound_timer_is_set() {
    let mut emu = machine(&[0x61, 0x2C, 0xF1, 0x18]);
    run(&mut emu, 2);
    assert_eq!(emu.sound_timer(), 0x2C);
    assert_eq!(emu.delay_timer(), 0);
}

#[test]
fn add_index_adds_a_register() {
    let mut emu = machine(&[0xA1, 0x00, 0x62, 0xFF, 0xF2, 0x1E]);
    run(&mut emu, 3);
    assert_eq!(emu.index_register(), 0x1FF);
    assert_eq!(emu.registers()[15], 0);
}

#[test]
fn add_index_wraps_at_sixteen_bits() {
    let mut program = vec![0xAF, 0xFF, 0x60, 0xFF];
    for _ in 0..250 {
        program.push(0xF0);
        program.push(0x1E);
    }
    let mut emu = machine(&program);
    run(&mut emu, 2 + 240);
    assert_eq!(emu.index_register(), 65295);
    run(&mut emu, 1);
    assert_eq!(emu.index_register(), 14);
    run(&mut emu, 9);
    assert_eq!(emu.index_register(), 2309);
}

#[test]
fn glyph_points_at_the_font() {
    let mut emu = machine(&[0x61, 0x0A, 0xF1, 0x29]);
    run(&mut emu, 2);
    assert_eq!(emu.index_register(), 50);
    assert_eq!(&emu.memory()[50..55], &[0xF0, 0x90, 0xF0, 0x90, 0x90]);
    let mut emu = machine(&[0x61, 0xFF, 0xF1, 0x29]);
    run(&mut emu, 2);
    assert_eq!(emu.index_register(), 1275);
}

#[test]
fn bcd_stores_hundreds_tens_and_ones() {
    let mut emu = machine(&[0x61, 254, 0xA3, 0x00, 0xF1, 0x33]);
    run(&mut emu, 3);
    assert_eq!(&emu.memory()[0x2FF..0x304], &[0, 2, 5, 4, 0]);
    assert_eq!(emu.index_register(), 0x300);

    let mut emu = machine(&[0x61, 7, 0xA3, 0x00, 0xF1, 0x33]);
    run(&mut emu, 3);
    assert_eq!(&emu.memory()[0x300..0x303], &[0, 0, 7]);

    let mut emu = machine(&[0x61, 109, 0xA3, 0x00, 0xF1, 0x33]);
    run(&mut emu, 3);
    assert_eq!(&emu.memory()[0x300..0x303], &[1, 0, 9]);
}

#[test]
fn bcd_fits_at_the_very_end_of_memory() {
    let mut emu = machine(&[0x61, 199, 0xAF, 0xFD, 0xF1, 0x33]);
    run(&mut emu, 3);
    assert_eq!(&emu.memory()[0xFFD..], &[1, 9, 9]);
    let mut emu = machine(&[0x61, 199, 0xAF, 0xFE, 0xF1, 0x33]);
    run(&mut emu, 2);
    assert_eq!(emu.tick(), Err(Error::OutOfBoundsAccess));
    assert_eq!(&emu.memory()[0xFFE..], &[0, 0]);
}

#[test]
fn store_writes_registers_up_to_x() {
    let mut emu = machine(&[0x60, 0x11, 0x61, 0x22, 0x62, 0x33, 0x63, 0x44, 0xA3, 0x00, 0xF2, 0x55]);
    run(&mut emu, 6);
    assert_eq!(&emu.memory()[0x2FF..0x305], &[0, 0x11, 0x22, 0x33, 0, 0]);
    assert_eq!(emu.index_register(), 0x300);
}

#[test]
fn store_of_register_zero_alone() {
    let mut emu = machine(&[0x60, 0x11, 0x61, 0x22, 0xA3, 0x00, 0xF0, 0x55]);
    run(&mut emu, 4);
    assert_eq!(&emu.memory()[0x300..0x302], &[0x11, 0]);
}

#[test]
fn load_reads_registers_up_to_x() {
    // Read the first four font bytes into v0..v3; v4 keeps its value.
    let mut emu = machine(&[0x64, 0x77, 0xA0, 0x00, 0xF3, 0x65]);
    run(&mut emu, 3);
    assert_eq!(&emu.registers()[..6], &[0xF0, 0x90, 0x90, 0x90, 0x77, 0]);
    assert_eq!(emu.index_register(), 0);
}

#[test]
fn store_and_load_all_registers_round_trip() {
    let mut program = Vec::new();
    for x in 0..16u8 {
        program.push(0x60 | x);
        program.push(0xA0 + x);
    }
    program.extend_from_slice(&[0xA4, 0x00, 0xFF, 0x55]);
    for x in 0..16u8 {
        program.push(0x60 | x);
        program.push(0);
    }
    program.extend_from_slice(&[0xFF, 0x65]);
    let mut emu = machine(&program);
    run(&mut emu, 16 + 2 + 16);
    assert_eq!(emu.registers(), &[0u8; 16][..]);
    run(&mut emu, 1);
    let expected: Vec<u8> = (0..16u8).map(|x| 0xA0 + x).collect();
    assert_eq!(emu.registers(), &expected[..]);
    assert_eq!(&emu.memory()[0x400..0x410], &expected[..]);
}

#[test]
fn store_and_load_past_the_end_of_memory_fail() {
    let mut emu = machine(&[0x60, 0x11, 0xAF, 0xFF, 0xF1, 0x55]);
    run(&mut emu, 2);
    assert_eq!(emu.tick(), Err(Error::OutOfBoundsAccess));
    assert_eq!(emu.memory()[0xFFF], 0);
    let mut emu = machine(&[0x60, 0x11, 0xAF, 0xFF, 0xF1, 0x65]);
    run(&mut emu, 2);
    assert_eq!(emu.tick(), Err(Error::OutOfBoundsAccess));
    assert_eq!(emu.registers()[0], 0x11);
    // The last byte of memory can be stored to and loaded from.
    let mut emu = machine(&[0x60, 0x11, 0xAF, 0xFF, 0xF0, 0x55, 0x60, 0x00, 0xF0, 0x65]);
    run(&mut emu, 5);
    assert_eq!(emu.memory()[0xFFF], 0x11);
    assert_eq!(emu.registers()[0], 0x11);
}

#[test]
fn unknown_opcode_fails_and_is_passed_over() {
    let mut emu = machine(&[0xFF, 0xFF, 0x61, 0x01]);
    assert_eq!(emu.tick(), Err(Error::UnknownOpcode));
    assert_eq!(emu.program_counter(), 0x202);
    assert_eq!(emu.registers(), &[0u8; 16][..]);
    assert_eq!(emu.tick(), Ok(()));
    assert_eq!(emu.registers()[1], 1);
}

#[test]
fn each_kind_of_unknown_opcode_fails() {
    for word in [[0x00u8, 0x01], [0x51, 0x21], [0x81, 0x28], [0x91, 0x21], [0xE1, 0x00], [0xF1, 0x00]]
    {
        let mut emu = machine(&word);
        assert_eq!(emu.tick(), Err(Error::UnknownOpcode));
        assert_eq!(emu.program_counter(), 0x202);
    }
}

#[test]
fn fetch_at_the_end_of_memory_fails_and_changes_nothing() {
    // Jump offset reaches 0x1000, the first address past memory.
    let mut emu = machine(&[0x60, 0x01, 0xBF, 0xFF]);
    run(&mut emu, 2);
    assert_eq!(emu.program_counter(), 0x1000);
    assert_eq!(emu.tick(), Err(Error::OutOfBoundsFetch));
    assert_eq!(emu.program_counter(), 0x1000);
    assert_eq!(emu.tick(), Err(Error::OutOfBoundsFetch));
    assert_eq!(emu.program_counter(), 0x1000);
    assert_eq!(emu.registers()[0], 1);
}

#[test]
fn fetch_of_half_an_instruction_fails() {
    let mut emu = machine(&[0x1F, 0xFF]);
    run(&mut emu, 1);
    assert_eq!(emu.program_counter(), 0xFFF);
    assert_eq!(emu.tick(), Err(Error::OutOfBoundsFetch));
    assert_eq!(emu.program_counter(), 0xFFF);
}

#[test]
fn fetch_of_the_last_instruction_in_memory_succeeds() {
    let mut program = vec![0u8; 4096 - 0x200];
    program[0] = 0x1F;
    program[1] = 0xFE;
    program[0xFFE - 0x200] = 0x61;
    program[0xFFF - 0x200] = 0x2A;
    let mut emu = machine(&program);
    run(&mut emu, 2);
    assert_eq!(emu.registers()[1], 0x2A);
    assert_eq!(emu.program_counter(), 0x1000);
    assert_eq!(emu.tick(), Err(Error::OutOfBoundsFetch));
}

#[test]
fn fetch_reads_the_high_byte_first() {
    // 0x12 0x06 is a jump to 0x206; read low byte first it would be no
    // instruction of that kind.
    let mut emu = machine(&[0x12, 0x06]);
    run(&mut emu, 1);
    assert_eq!(emu.program_counter(), 0x206);
}

#[test]
fn skip_past_the_end_of_memory_fails_at_the_next_fetch() {
    let mut program = vec![0u8; 4096 - 0x200];
    program[0] = 0x1F;
    program[1] = 0xFE;
    // 0xFFE: skip if v0 == 0.
    program[0xFFE - 0x200] = 0x30;
    program[0xFFF - 0x200] = 0x00;
    let mut emu = machine(&program);
    run(&mut emu, 2);
    assert_eq!(emu.program_counter(), 0x1002);
    assert_eq!(emu.tick(), Err(Error::OutOfBoundsFetch));
    assert_eq!(emu.program_counter(), 0x1002);
}

#[test]
fn bcd_agrees_with_floating_point_digits_for_every_byte() {
    for val in 0..=255u8 {
        let mut emu = machine(&[0x60, val, 0xA3, 0x00, 0xF0, 0x33]);
        run(&mut emu, 3);
        let v = val as f32;
        let hundreds = (v / 100.0).floor() as u8;
        let tens = ((v / 10.0) % 10.0).floor() as u8;
        let ones = (v % 10.0).floor() as u8;
        assert_eq!(&emu.memory()[0x300..0x303], &[hundreds, tens, ones]);
        assert_eq!(100 * hundreds as u32 + 10 * tens as u32 + ones as u32, val as u32);
    }
}

#[test]
fn add_and_sub_agree_with_overflowing_arithmetic() {
    let mut emu = Emu::new();
    for a in 0..=255u8 {
        for b in (0..=255u8).step_by(3) {
            emu.reset();
            // v1 = a, v2 = b, v3 = a, v4 = a; v1 += v2; v3 -= v2; v4 = v2 - v4
            emu.load(&[0x61, a, 0x62, b, 0x63, a, 0x64, a, 0x81, 0x24, 0x83, 0x25, 0x84, 0x27]);
            run(&mut emu, 5);
            let (sum, carry) = a.overflowing_add(b);
            assert_eq!((emu.registers()[1], emu.registers()[15]), (sum, !carry as u8));

            run(&mut emu, 1);
            let (diff, borrow) = a.overflowing_sub(b);
            assert_eq!((emu.registers()[3], emu.registers()[15]), (diff, !borrow as u8));

            run(&mut emu, 1);
            let (diff, borrow) = b.overflowing_sub(a);
            assert_eq!((emu.registers()[4], emu.registers()[15]), (diff, !borrow as u8));
        }
    }
}

#[test]
fn shifts_agree_with_the_shift_operators_for_every_byte() {
    for val in 0..=255u8 {
        let mut emu = machine(&[0x61, val, 0x62, val, 0x81, 0x06, 0x82, 0x0E]);
        run(&mut emu, 3);
        assert_eq!((emu.registers()[1], emu.registers()[15]), (val >> 1, val & 1));
        run(&mut emu, 1);
        assert_eq!((emu.registers()[2], emu.registers()[15]), (val << 1, val >> 7));
    }
}
