use rc80_core::{Fault, Instruction, System};

fn lit(system: &System) -> Vec<(usize, usize)> {
    let mut cells = Vec::new();
    for (index, &pixel) in system.pixels.iter().enumerate() {
        if pixel != 0 {
            assert_eq!(pixel, 1);
            cells.push((index % 64, index / 64));
        }
    }
    cells
}

#[test]
fn clear_screen_turns_every_pixel_off() {
    let mut system = System::new();
    system.pixels[0] = 1;
    system.pixels[2047] = 1;
    system.v_registers[15] = 1;
    system.clear_screen();
    assert!(system.pixels.iter().all(|&pixel| pixel == 0));
    assert_eq!(system.v_registers[15], 1);
    assert_eq!(system.program_counter, 0x200);
}

#[test]
fn drawing_twice_collides_and_cancels() {
    let mut system = System::new();
    system.clear_screen();
    let row = [1u8; 8];
    system.v_registers[15] = 9;
    system.blit_sprite(0, 0, &row);
    assert_eq!(system.v_registers[15], 0);
    assert_eq!(lit(&system), (0..8).map(|x| (x, 0)).collect::<Vec<_>>());
    system.blit_sprite(0, 0, &row);
    assert_eq!(system.v_registers[15], 1);
    assert!(lit(&system).is_empty());
}

#[test]
fn drawing_wraps_around_the_right_edge() {
    let mut system = System::new();
    system.blit_sprite(60, 0, &[1u8; 8]);
    assert_eq!(
        lit(&system),
        vec![(0, 0), (1, 0), (2, 0), (3, 0), (60, 0), (61, 0), (62, 0), (63, 0)]
    );
    assert_eq!(system.v_registers[15], 0);
}

#[test]
fn drawing_wraps_around_the_bottom_edge() {
    let mut system = System::new();
    let mut sprite = vec![0u8; 16];
    sprite[0] = 1;
    sprite[8] = 1;
    system.blit_sprite(5, 31, &sprite);
    assert_eq!(lit(&system), vec![(5, 0), (5, 31)]);
}

#[test]
fn coordinates_beyond_the_screen_wrap() {
    let mut system = System::new();
    system.blit_sprite(255, 255, &[1, 0, 1]);
    // 255 mod 64 = 63, 255 mod 32 = 31
    assert_eq!(lit(&system), vec![(1, 31), (63, 31)]);
}

#[test]
fn rows_are_eight_pixels_wide() {
    let mut system = System::new();
    let mut sprite = vec![0u8; 24];
    sprite[7] = 1;
    sprite[8] = 1;
    sprite[23] = 1;
    system.blit_sprite(10, 4, &sprite);
    assert_eq!(lit(&system), vec![(17, 4), (10, 5), (17, 6)]);
}

#[test]
fn pixels_other_than_one_draw_nothing() {
    let mut system = System::new();
    system.pixels[0] = 1;
    system.blit_sprite(0, 0, &[0, 2, 255, 1]);
    assert_eq!(lit(&system), vec![(0, 0), (3, 0)]);
    assert_eq!(system.v_registers[15], 0);
}

#[test]
fn partial_overlap_collides_once() {
    let mut system = System::new();
    system.blit_sprite(0, 0, &[1, 1, 0, 0]);
    system.blit_sprite(0, 0, &[0, 1, 1, 0]);
    assert_eq!(lit(&system), vec![(0, 0), (2, 0)]);
    assert_eq!(system.v_registers[15], 1);
    system.blit_sprite(0, 0, &[0, 1, 0, 0]);
    assert_eq!(system.v_registers[15], 0);
    assert_eq!(lit(&system), vec![(0, 0), (1, 0), (2, 0)]);
}

#[test]
fn a_sprite_longer_than_the_screen_overlaps_itself() {
    let mut system = System::new();
    let mut sprite = vec![0u8; 257];
    sprite[0] = 1;
    sprite[256] = 1;
    system.blit_sprite(0, 0, &sprite);
    assert!(lit(&system).is_empty());
    assert_eq!(system.v_registers[15], 1);
}

#[test]
fn draw_instruction_unpacks_bits_most_significant_first() {
    // D125: 5 rows at (V1, V2); sprite bytes follow at 0x202
    let mut system = System::new();
    assert_eq!(system.load(&[0xD1, 0x22, 0b1010_0001, 0b0100_0000]), Ok(()));
    system.i_register = 0x202;
    system.v_registers[1] = 3;
    system.v_registers[2] = 2;
    assert_eq!(system.step(), Ok(Instruction::Draw { x: 1, y: 2, rows: 2 }));
    assert_eq!(lit(&system), vec![(3, 2), (5, 2), (10, 2), (4, 3)]);
    assert_eq!(system.v_registers[15], 0);
    assert_eq!(system.program_counter, 0x202);
    assert_eq!(system.i_register, 0x202);
}

#[test]
fn draw_instruction_reports_collisions() {
    // D011 twice: one row of 0xFF at (0, 0)
    let mut system = System::new();
    assert_eq!(system.load(&[0x00, 0xE0, 0xD0, 0x11, 0xD0, 0x11, 0xFF]), Ok(()));
    system.i_register = 0x206;
    assert_eq!(system.step(), Ok(Instruction::ClearScreen));
    assert_eq!(system.step(), Ok(Instruction::Draw { x: 0, y: 1, rows: 1 }));
    assert_eq!(system.v_registers[15], 0);
    assert_eq!(lit(&system), (0..8).map(|x| (x, 0)).collect::<Vec<_>>());
    assert_eq!(system.step(), Ok(Instruction::Draw { x: 0, y: 1, rows: 1 }));
    assert_eq!(system.v_registers[15], 1);
    assert!(lit(&system).is_empty());
    assert_eq!(system.program_counter, 0x206);
}

#[test]
fn draw_at_column_sixty_wraps() {
    let mut system = System::new();
    assert_eq!(system.load(&[0xD0, 0x11, 0xFF]), Ok(()));
    system.i_register = 0x202;
    system.v_registers[0] = 60;
    system.v_registers[1] = 0;
    assert_eq!(system.step(), Ok(Instruction::Draw { x: 0, y: 1, rows: 1 }));
    assert_eq!(
        lit(&system),
        vec![(0, 0), (1, 0), (2, 0), (3, 0), (60, 0), (61, 0), (62, 0), (63, 0)]
    );
}

#[test]
fn draw_outside_memory_faults() {
    let mut system = System::new();
    assert_eq!(system.load(&[0xD0, 0x12]), Ok(()));
    system.i_register = 4095;
    system.memory[4095] = 0xFF;
    system.v_registers[15] = 7;
    assert_eq!(system.step(), Err(Fault::Memory));
    assert!(lit(&system).is_empty());
    assert_eq!(system.v_registers[15], 7);
    assert_eq!(system.program_counter, 0x200);
}

#[test]
fn draw_of_no_rows_touches_no_memory() {
    let mut system = System::new();
    assert_eq!(system.load(&[0xD0, 0x10]), Ok(()));
    system.i_register = 0xFFFF;
    system.v_registers[15] = 7;
    assert_eq!(system.step(), Ok(Instruction::Draw { x: 0, y: 1, rows: 0 }));
    assert!(lit(&system).is_empty());
    assert_eq!(system.v_registers[15], 0);
    assert_eq!(system.program_counter, 0x202);
}

#[test]
fn draw_up_to_the_end_of_memory() {
    let mut system = System::new();
    assert_eq!(system.load(&[0xD0, 0x12]), Ok(()));
    system.i_register = 4094;
    system.memory[4094] = 0x80;
    system.memory[4095] = 0x01;
    assert_eq!(system.step(), Ok(Instruction::Draw { x: 0, y: 1, rows: 2 }));
    assert_eq!(lit(&system), vec![(0, 0), (7, 1)]);
}
