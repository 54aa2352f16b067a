use chip8::chip::Chip;
use chip8::model::{ChipError, OutputChange, PC};
use chip8::entropy::byte_or_zero;
use chip8::render::nearest_interpolation;

fn boot(rom: &[u8]) -> Chip {
    Chip::new().load(rom)
}

fn step(c: &mut Chip) -> OutputChange {
    c.tick_with_random(0).expect("tick failed")
}

fn steps(c: &mut Chip, n: usize) {
    for _ in 0..n {
        step(c);
    }
}

const GLYPH_ZERO: [u8; 5] = [0xF0, 0x90, 0x90, 0x90, 0xF0];

#[test]
fn skip_if_picks_skip_or_next() {
    assert_eq!(PC::skip_if(true), PC::Skip);
    assert_eq!(PC::skip_if(false), PC::Next);
}

#[test]
fn new_machine_state() {
    let c = Chip::new();
    assert_eq!(c.pc, 0x200);
    assert_eq!(c.index(), 0);
    assert_eq!(c.stack_pointer(), 0);
    assert_eq!(c.delay_timer(), 0);
    assert_eq!(c.sound_timer(), 0);
    assert!(!c.is_waiting_for_key());
    assert!(c.registers().iter().all(|&r| r == 0));
    assert!(c.framebuffer().iter().all(|&p| p == 0));
    assert_eq!(c.framebuffer().len(), 2048);
    let mem = c.memory();
    assert_eq!(mem.len(), 4096);
    assert_eq!(&mem[0x50..0x55], &GLYPH_ZERO);
    assert_eq!(&mem[0x9B..0xA0], &[0xF0, 0x80, 0xF0, 0x80, 0x80]);
    assert!(mem[..0x50].iter().all(|&b| b == 0));
    assert!(mem[0xA0..].iter().all(|&b| b == 0));
}

#[test]
fn load_copies_at_program_start() {
    let c = boot(&[1, 2, 3]);
    assert_eq!(&c.memory()[0x200..0x204], &[1, 2, 3, 0]);
    assert_eq!(c.memory()[0x1FF], 0);
}

#[test]
fn load_drops_bytes_past_memory_end() {
    let rom: Vec<u8> = (0..(4096 - 0x200 + 10)).map(|i| (i % 251) as u8 + 1).collect();
    let c = boot(&rom);
    assert_eq!(c.memory()[4095], rom[4095 - 0x200]);
    assert_eq!(c.memory().len(), 4096);
}

#[test]
fn scenario_add_two_registers() {
    let mut c = boot(&[0x60, 0x05, 0x61, 0x0A, 0x80, 0x14]);
    steps(&mut c, 3);
    assert_eq!(c.registers()[0], 15);
    assert_eq!(c.registers()[15], 0);
    assert_eq!(c.pc, 0x206);
}

#[test]
fn scenario_redraw_loop() {
    let mut c = boot(&[0xA0, 0x50, 0xD0, 0x05, 0x12, 0x00]);
    for cycle in 0..10 {
        let o1 = step(&mut c);
        assert!(!o1.vram);
        assert_eq!(c.pc, 0x202);
        let o2 = step(&mut c);
        assert!(o2.vram);
        assert_eq!(c.registers()[15], if cycle % 2 == 0 { 0 } else { 1 });
        let o3 = step(&mut c);
        assert!(!o3.vram);
        assert_eq!(c.pc, 0x200);
    }
}

#[test]
fn scenario_call_return_every_depth() {
    for depth in 0..16u16 {
        let mut rom = vec![0u8; 0x200];
        for i in 0..depth {
            let target = 0x200 + 2 * (i + 1);
            rom[2 * i as usize] = 0x20 | (target >> 8) as u8;
            rom[2 * i as usize + 1] = target as u8;
        }
        rom[2 * depth as usize] = 0x23;
        rom[2 * depth as usize + 1] = 0x00;
        rom[0x100] = 0x00;
        rom[0x101] = 0xEE;
        let mut c = boot(&rom);
        steps(&mut c, depth as usize);
        assert_eq!(c.stack_pointer() as u16, depth);
        let site = c.pc;
        step(&mut c);
        assert_eq!(c.pc, 0x300);
        step(&mut c);
        assert_eq!(c.pc, site + 2);
        assert_eq!(c.stack_pointer() as u16, depth);
    }
}

#[test]
fn seventeenth_nested_call_overflows() {
    let mut rom = vec![0u8; 0x40];
    for i in 0..17u16 {
        let target = 0x200 + 2 * (i + 1);
        rom[2 * i as usize] = 0x20 | (target >> 8) as u8;
        rom[2 * i as usize + 1] = target as u8;
    }
    let mut c = boot(&rom);
    steps(&mut c, 16);
    assert_eq!(c.stack_pointer(), 16);
    let pc = c.pc;
    assert_eq!(c.tick_with_random(0), Err(ChipError::StackOverflow));
    assert_eq!(c.pc, pc);
    assert_eq!(c.stack_pointer(), 16);
}

#[test]
fn return_with_empty_stack_underflows() {
    let mut c = boot(&[0x00, 0xEE]);
    assert_eq!(c.tick_with_random(0), Err(ChipError::StackUnderflow));
    assert_eq!(c.pc, 0x200);
}

#[test]
fn add_registers_carry() {
    for &(a, b) in &[(0u8, 0u8), (200, 55), (200, 56), (255, 255), (1, 254), (128, 128)] {
        let mut c = boot(&[0x60, a, 0x61, b, 0x80, 0x14]);
        steps(&mut c, 3);
        let sum = a as u16 + b as u16;
        assert_eq!(c.registers()[0], (sum % 256) as u8);
        assert_eq!(c.registers()[15], if sum > 255 { 1 } else { 0 });
    }
}

#[test]
fn sub_registers_borrow() {
    for &(a, b) in &[(5u8, 3u8), (3, 5), (7, 7), (0, 255), (255, 0)] {
        let mut c = boot(&[0x60, a, 0x61, b, 0x80, 0x15]);
        steps(&mut c, 3);
        assert_eq!(c.registers()[0], a.wrapping_sub(b));
        assert_eq!(c.registers()[15], if a >= b { 1 } else { 0 });
    }
}

#[test]
fn reversed_sub_borrow() {
    for &(a, b) in &[(5u8, 3u8), (3, 5), (9, 9)] {
        let mut c = boot(&[0x60, a, 0x61, b, 0x80, 0x17]);
        steps(&mut c, 3);
        assert_eq!(c.registers()[0], b.wrapping_sub(a));
        assert_eq!(c.registers()[15], if b >= a { 1 } else { 0 });
    }
}

#[test]
fn shifts_set_flag_from_lost_bit() {
    let mut c = boot(&[0x60, 0x81, 0x80, 0x06]);
    steps(&mut c, 2);
    assert_eq!(c.registers()[0], 0x40);
    assert_eq!(c.registers()[15], 1);
    let mut c = boot(&[0x60, 0x81, 0x80, 0x0E]);
    steps(&mut c, 2);
    assert_eq!(c.registers()[0], 0x02);
    assert_eq!(c.registers()[15], 1);
    let mut c = boot(&[0x60, 0x40, 0x80, 0x0E]);
    steps(&mut c, 2);
    assert_eq!(c.registers()[0], 0x80);
    assert_eq!(c.registers()[15], 0);
}

#[test]
fn bitwise_and_move() {
    let mut c = boot(&[0x60, 0xC3, 0x61, 0x5A, 0x82, 0x00, 0x82, 0x11, 0x83, 0x00, 0x83, 0x12, 0x84, 0x00, 0x84, 0x13]);
    steps(&mut c, 8);
    assert_eq!(c.registers()[2], 0xC3 | 0x5A);
    assert_eq!(c.registers()[3], 0xC3 & 0x5A);
    assert_eq!(c.registers()[4], 0xC3 ^ 0x5A);
}

#[test]
fn add_immediate_wraps_without_flag() {
    let mut c = boot(&[0x60, 0xFF, 0x70, 0x02]);
    steps(&mut c, 2);
    assert_eq!(c.registers()[0], 1);
    assert_eq!(c.registers()[15], 0);
}

#[test]
fn conditional_skips() {
    let mut c = boot(&[0x60, 0x07, 0x30, 0x07]);
    steps(&mut c, 2);
    assert_eq!(c.pc, 0x206);
    let mut c = boot(&[0x60, 0x07, 0x40, 0x07]);
    steps(&mut c, 2);
    assert_eq!(c.pc, 0x204);
    let mut c = boot(&[0x60, 0x07, 0x61, 0x07, 0x50, 0x10]);
    steps(&mut c, 3);
    assert_eq!(c.pc, 0x208);
    let mut c = boot(&[0x60, 0x07, 0x61, 0x07, 0x90, 0x10]);
    steps(&mut c, 3);
    assert_eq!(c.pc, 0x206);
}

#[test]
fn jumps() {
    let mut c = boot(&[0x13, 0x45]);
    step(&mut c);
    assert_eq!(c.pc, 0x345);
    let mut c = boot(&[0x60, 0x10, 0xB3, 0x00]);
    steps(&mut c, 2);
    assert_eq!(c.pc, 0x310);
}

#[test]
fn index_instructions() {
    let mut c = boot(&[0xA1, 0x23, 0x60, 0x10, 0xF0, 0x1E]);
    steps(&mut c, 3);
    assert_eq!(c.index(), 0x133);
    let mut c = boot(&[0x60, 0x0A, 0xF0, 0x29]);
    steps(&mut c, 2);
    assert_eq!(c.index(), 0x50 + 5 * 10);
}

#[test]
fn bcd_store() {
    let mut c = boot(&[0x60, 254, 0xA3, 0x00, 0xF0, 0x33]);
    steps(&mut c, 3);
    assert_eq!(&c.memory()[0x300..0x303], &[2, 5, 4]);
}

#[test]
fn register_dump_and_load() {
    let mut c = boot(&[0x60, 1, 0x61, 2, 0x62, 3, 0x63, 4, 0xA3, 0x00, 0xF2, 0x55]);
    steps(&mut c, 6);
    assert_eq!(&c.memory()[0x300..0x304], &[1, 2, 3, 0]);
    let mut rom = vec![0xA3, 0x00, 0xF1, 0x65];
    rom.resize(0x100, 0);
    rom.extend_from_slice(&[9, 8, 7]);
    let mut c = boot(&rom);
    steps(&mut c, 2);
    assert_eq!(&c.registers()[0..3], &[9, 8, 0]);
}

#[test]
fn random_masks_with_immediate() {
    let mut c = boot(&[0xC0, 0x0F]);
    c.tick_with_random(0xAB).unwrap();
    assert_eq!(c.registers()[0], 0x0B);
    let mut c = boot(&[0x60, 0x55, 0xC0, 0x00]);
    c.tick().unwrap();
    c.tick().unwrap();
    assert_eq!(c.registers()[0], 0);
    assert_eq!(c.pc, 0x204);
}

#[test]
fn clear_screen_blanks_frame() {
    let mut c = boot(&[0xA0, 0x50, 0xD0, 0x05, 0x00, 0xE0]);
    steps(&mut c, 2);
    assert!(c.framebuffer().iter().any(|&p| p != 0));
    let out = step(&mut c);
    assert!(out.vram);
    assert!(c.framebuffer().iter().all(|&p| p == 0));
    let mut c = boot(&[0x00, 0xE0]);
    assert!(step(&mut c).vram);
    assert!(c.framebuffer().iter().all(|&p| p == 0));
}

#[test]
fn draw_glyph_then_erase() {
    let mut c = boot(&[0xA0, 0x50, 0xD0, 0x05, 0xD0, 0x05]);
    steps(&mut c, 2);
    assert_eq!(c.registers()[15], 0);
    for (row, bits) in GLYPH_ZERO.iter().enumerate() {
        for col in 0..8 {
            let on = (bits >> (7 - col)) & 1;
            assert_eq!(c.framebuffer()[row * 64 + col], on);
        }
    }
    step(&mut c);
    assert_eq!(c.registers()[15], 1);
    assert!(c.framebuffer().iter().all(|&p| p == 0));
}

#[test]
fn draw_clips_at_edges() {
    let mut c = boot(&[0x60, 62, 0x61, 30, 0xA0, 0x50, 0xD0, 0x15]);
    steps(&mut c, 4);
    let fb = c.framebuffer();
    assert_eq!(fb[30 * 64 + 62], 1);
    assert_eq!(fb[30 * 64 + 63], 1);
    assert_eq!(fb[31 * 64 + 62], 1);
    assert_eq!(fb[31 * 64 + 63], 0);
    assert_eq!(fb.iter().filter(|&&p| p != 0).count(), 3);
}

#[test]
fn draw_origin_wraps_once() {
    let mut c = boot(&[0x60, 64 + 3, 0x61, 32 + 2, 0xA0, 0x50, 0xD0, 0x11]);
    steps(&mut c, 4);
    let fb = c.framebuffer();
    for col in 0..8 {
        let expect = if (3..7).contains(&col) { 1 } else { 0 };
        assert_eq!(fb[2 * 64 + col], expect);
    }
}

#[test]
fn draw_reading_past_memory_fails() {
    let mut c = boot(&[0xAF, 0xFE, 0xD0, 0x05]);
    step(&mut c);
    assert_eq!(c.tick_with_random(0), Err(ChipError::MemoryAccessError));
    assert!(c.framebuffer().iter().all(|&p| p == 0));
}

#[test]
fn store_past_memory_fails() {
    let mut c = boot(&[0xAF, 0xFE, 0xF0, 0x33]);
    step(&mut c);
    assert_eq!(c.tick_with_random(0), Err(ChipError::MemoryAccessError));
    assert_eq!(c.pc, 0x202);
    let mut c = boot(&[0xAF, 0xFF, 0xF1, 0x55]);
    step(&mut c);
    assert_eq!(c.tick_with_random(0), Err(ChipError::MemoryAccessError));
    let mut c = boot(&[0xAF, 0xFF, 0xF1, 0x65]);
    step(&mut c);
    assert_eq!(c.tick_with_random(0), Err(ChipError::MemoryAccessError));
}

#[test]
fn fetch_past_memory_fails() {
    let mut c = boot(&[0x1F, 0xFF]);
    step(&mut c);
    assert_eq!(c.tick_with_random(0), Err(ChipError::MemoryAccessError));
    assert_eq!(c.pc, 0xFFF);
}

#[test]
fn unknown_opcode_policy() {
    let mut c = boot(&[0x50, 0x01]);
    step(&mut c);
    assert_eq!(c.pc, 0x202);
    let mut c = boot(&[0x50, 0x01]);
    c.set_strict(true);
    assert_eq!(c.tick_with_random(0), Err(ChipError::UnknownOpcode(0x5001)));
    assert_eq!(c.pc, 0x200);
}

#[test]
fn wait_for_key() {
    let mut c = boot(&[0x60, 0x03, 0x61, 0x02, 0xF0, 0x15, 0xF1, 0x18, 0xF3, 0x0A, 0x12, 0x00]);
    steps(&mut c, 5);
    assert!(c.is_waiting_for_key());
    assert_eq!(c.pc, 0x20A);
    let (delay, sound) = (c.delay_timer(), c.sound_timer());
    for _ in 0..3 {
        let out = step(&mut c);
        assert!(!out.vram);
        assert_eq!(c.pc, 0x20A);
        assert_eq!(c.delay_timer(), delay);
        assert_eq!(c.sound_timer(), sound);
        assert_eq!(c.registers()[3], 0);
        assert!(c.is_waiting_for_key());
    }
    c.set_key(9);
    c.set_key(7);
    step(&mut c);
    assert_eq!(c.registers()[3], 7);
    assert!(!c.is_waiting_for_key());
    assert_eq!(c.pc, 0x20A);
    assert_eq!(c.delay_timer(), delay);
    step(&mut c);
    assert_eq!(c.pc, 0x200);
}

#[test]
fn timers_count_down_to_zero() {
    let mut c = boot(&[0x60, 0x02, 0xF0, 0x15, 0xF0, 0x18, 0x12, 0x06]);
    steps(&mut c, 2);
    assert_eq!(c.delay_timer(), 2);
    let out = step(&mut c);
    assert_eq!(c.delay_timer(), 1);
    assert_eq!(c.sound_timer(), 2);
    assert!(out.beep);
    let out = step(&mut c);
    assert_eq!(c.delay_timer(), 0);
    assert_eq!(c.sound_timer(), 1);
    assert!(out.beep);
    let out = step(&mut c);
    assert_eq!(c.delay_timer(), 0);
    assert_eq!(c.sound_timer(), 0);
    assert!(!out.beep);
    step(&mut c);
    assert_eq!(c.delay_timer(), 0);
}

#[test]
fn read_delay_timer() {
    let mut c = boot(&[0x60, 0x09, 0xF0, 0x15, 0xF1, 0x07]);
    steps(&mut c, 3);
    assert_eq!(c.registers()[1], 8);
}

#[test]
fn key_skips() {
    let mut c = boot(&[0x60, 0x05, 0xE0, 0x9E]);
    c.set_key(5);
    steps(&mut c, 2);
    assert_eq!(c.pc, 0x206);
    let mut c = boot(&[0x60, 0x05, 0xE0, 0xA1]);
    c.set_key(5);
    steps(&mut c, 2);
    assert_eq!(c.pc, 0x204);
    let mut c = boot(&[0x60, 0x05, 0xE0, 0xA1]);
    c.set_key(5);
    c.unset_key(5);
    steps(&mut c, 2);
    assert_eq!(c.pc, 0x206);
    let mut c = boot(&[0x60, 0x20, 0xE0, 0x9E]);
    steps(&mut c, 2);
    assert_eq!(c.pc, 0x204);
}

#[test]
fn out_of_range_keys_are_ignored() {
    let mut c = boot(&[0xF0, 0x0A]);
    step(&mut c);
    c.set_key(16);
    c.set_key(200);
    step(&mut c);
    assert!(c.is_waiting_for_key());
    c.unset_key(99);
}

#[test]
fn scaled_image_colours() {
    let mut frame = vec![0u8; 2048];
    frame[0] = 1;
    frame[64 + 63] = 1;
    let scale = 2u32;
    let mut image = vec![0u8; 4 * 2048 * 4];
    nearest_interpolation(&frame, &mut image, scale);
    let width = 128;
    let px = |y: usize, x: usize| &image[(y * width + x) * 4..(y * width + x) * 4 + 4];
    for (y, x) in [(0, 0), (0, 1), (1, 0), (1, 1)] {
        assert_eq!(px(y, x), &[220, 220, 220, 255]);
    }
    assert_eq!(px(0, 2), &[47, 47, 47, 255]);
    assert_eq!(px(2, 0), &[47, 47, 47, 255]);
    assert_eq!(px(2, 126), &[220, 220, 220, 255]);
    assert_eq!(px(3, 127), &[220, 220, 220, 255]);
    assert_eq!(px(63, 127), &[47, 47, 47, 255]);
    let on = image.chunks(4).filter(|p| p[0] == 220).count();
    assert_eq!(on, 8);
}

#[test]
fn failed_random_source_gives_zero() {
    assert_eq!(byte_or_zero(Ok(0xA7)), 0xA7);
    assert_eq!(byte_or_zero(Err(getrandom::Error::UNSUPPORTED)), 0);
}

#[test]
fn flag_register_as_operand_follows_write_order() {
    // SUB with x = VF: the flag is written first, then the difference.
    let mut c = boot(&[0x6F, 0x09, 0x61, 0x03, 0x8F, 0x15]);
    steps(&mut c, 3);
    assert_eq!(c.registers()[15], 1u8.wrapping_sub(3));
    // SHR with x = VF: the low bit goes to VF, then VF is shifted.
    let mut c = boot(&[0x6F, 0x05, 0x8F, 0x06]);
    steps(&mut c, 2);
    assert_eq!(c.registers()[15], 0);
    // ADD with x = VF: the carry is written last.
    let mut c = boot(&[0x6F, 0xF0, 0x61, 0x20, 0x8F, 0x14]);
    steps(&mut c, 3);
    assert_eq!(c.registers()[15], 1);
}

#[test]
fn drawing_twice_restores_frame() {
    let mut c = boot(&[0x60, 60, 0x61, 29, 0xA0, 0x5A, 0xD0, 0x1F, 0xD0, 0x1F]);
    steps(&mut c, 4);
    assert!(c.framebuffer().iter().any(|&p| p != 0));
    step(&mut c);
    assert!(c.framebuffer().iter().all(|&p| p == 0));
    assert_eq!(c.registers()[15], 1);
}

#[test]
fn scaled_image_keeps_bytes_past_image() {
    let mut frame = vec![1u8; 2048 + 5];
    frame[2048] = 0;
    let mut image = vec![9u8; 4 * 2048 + 7];
    nearest_interpolation(&frame, &mut image, 1);
    assert!(image[..4 * 2048].chunks(4).all(|p| p == [220, 220, 220, 255]));
    assert!(image[4 * 2048..].iter().all(|&b| b == 9));
}
