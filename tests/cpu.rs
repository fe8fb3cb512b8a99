use chip8::{Cpu, Fault, NextPc};

fn cpu_with(v: &[(usize, u8)]) -> Cpu {
    let mut cpu = Cpu::new();
    for &(x, b) in v {
        cpu.v[x] = b;
    }
    cpu
}

#[test]
fn new_cpu_is_zeroed_with_pc_at_program_start() {
    let cpu = Cpu::new();
    assert_eq!(cpu.v, [0u8; 16]);
    assert_eq!(cpu.i, 0);
    assert_eq!(cpu.delay, 0);
    assert_eq!(cpu.sound, 0);
    assert_eq!(cpu.pc, 0x200);
    assert_eq!(cpu.sp, 0);
    assert_eq!(cpu.stack, [0u16; 16]);
    assert!(cpu.ram.iter().all(|&b| b == 0));
    assert_eq!(cpu.ram.len(), 0xFFF);
}

#[test]
fn init_ram_installs_font_glyphs() {
    let mut cpu = Cpu::new();
    cpu.ram[80] = 0xAB;
    cpu.init_ram();
    // glyph 0
    assert_eq!(&cpu.ram[0..5], &[0xF0, 0x90, 0x90, 0x90, 0xF0]);
    // glyph 7
    assert_eq!(&cpu.ram[35..40], &[0xF0, 0x10, 0x20, 0x40, 0x40]);
    // glyph F
    assert_eq!(&cpu.ram[75..80], &[0xF0, 0x80, 0xF0, 0x80, 0x80]);
    assert_eq!(cpu.ram[80], 0xAB);
}

#[test]
fn load_rom_copies_to_program_start() {
    let mut cpu = Cpu::new();
    cpu.load_rom(&[0x12, 0x34, 0x56]);
    assert_eq!(cpu.ram[0x1FF], 0);
    assert_eq!(&cpu.ram[0x200..0x203], &[0x12, 0x34, 0x56]);
    assert_eq!(cpu.ram[0x203], 0);
}

#[test]
fn load_rom_of_largest_size_fills_memory() {
    let mut cpu = Cpu::new();
    let rom = vec![0x77u8; 0xFFF - 0x200];
    cpu.load_rom(&rom);
    assert_eq!(cpu.ram[0x200], 0x77);
    assert_eq!(cpu.ram[0xFFE], 0x77);
}

#[test]
fn fetch_splits_into_nibbles() {
    let mut cpu = Cpu::new();
    cpu.load_rom(&[0xA2, 0xF0]);
    assert_eq!(cpu.fetch_instruction_code(), (0xA, 0x2, 0xF, 0x0));
}

#[test]
fn set_pc_follows_directive() {
    let mut cpu = Cpu::new();
    cpu.set_pc(NextPc::Next);
    assert_eq!(cpu.pc, 0x202);
    cpu.set_pc(NextPc::Skip);
    assert_eq!(cpu.pc, 0x206);
    cpu.set_pc(NextPc::Jump(0x345));
    assert_eq!(cpu.pc, 0x345);
}

#[test]
fn ld_vx_byte_combines_nibbles() {
    let mut cpu = Cpu::new();
    assert_eq!(cpu.ld_vx_byte(0x3, 0xA, 0x5), NextPc::Next);
    assert_eq!(cpu.v[3], 0xA5);
    cpu.ld_vx_byte(0xF, 0xF, 0xF);
    assert_eq!(cpu.v[0xF], 0xFF);
    cpu.ld_vx_byte(0x0, 0x0, 0x0);
    assert_eq!(cpu.v[0], 0x00);
}

#[test]
fn add_vx_byte_wraps_and_leaves_flag() {
    let mut cpu = cpu_with(&[(1, 0xFE)]);
    assert_eq!(cpu.add_vx_byte(1, 0x0, 0x3), NextPc::Next);
    assert_eq!(cpu.v[1], 0x01);
    assert_eq!(cpu.v[0xF], 0);
    cpu.add_vx_byte(1, 0x1, 0x0);
    assert_eq!(cpu.v[1], 0x11);
}

#[test]
fn add_vx_vy_sets_carry() {
    let mut cpu = cpu_with(&[(1, 200), (2, 100)]);
    assert_eq!(cpu.add_vx_vy(1, 2), NextPc::Next);
    assert_eq!(cpu.v[1], 44);
    assert_eq!(cpu.v[0xF], 1);
    assert_eq!(cpu.v[2], 100);
}

#[test]
fn add_vx_vy_without_carry_clears_flag() {
    let mut cpu = cpu_with(&[(1, 200), (2, 55), (0xF, 1)]);
    cpu.add_vx_vy(1, 2);
    assert_eq!(cpu.v[1], 255);
    assert_eq!(cpu.v[0xF], 0);
}

#[test]
fn add_vx_vy_into_flag_register_keeps_sum() {
    let mut cpu = cpu_with(&[(0xF, 200), (0, 100)]);
    cpu.add_vx_vy(0xF, 0);
    assert_eq!(cpu.v[0xF], 44);
}

#[test]
fn sub_vx_vy_does_not_wrap() {
    let mut cpu = cpu_with(&[(1, 5), (2, 9)]);
    assert_eq!(cpu.sub_vx_vy(1, 2), NextPc::Next);
    assert_eq!(cpu.v[1], 5);
    assert_eq!(cpu.v[0xF], 0);
    let mut cpu = cpu_with(&[(1, 9), (2, 5)]);
    cpu.sub_vx_vy(1, 2);
    assert_eq!(cpu.v[1], 4);
    assert_eq!(cpu.v[0xF], 1);
}

#[test]
fn sub_vx_vy_of_equal_values_gives_zero_and_clear_flag() {
    let mut cpu = cpu_with(&[(1, 7), (2, 7), (0xF, 1)]);
    cpu.sub_vx_vy(1, 2);
    assert_eq!(cpu.v[1], 0);
    assert_eq!(cpu.v[0xF], 0);
}

#[test]
fn subn_vx_vy_does_not_wrap() {
    let mut cpu = cpu_with(&[(1, 5), (2, 9)]);
    cpu.subn_vx_vy(1, 2);
    assert_eq!(cpu.v[1], 4);
    assert_eq!(cpu.v[0xF], 1);
    let mut cpu = cpu_with(&[(1, 9), (2, 5)]);
    cpu.subn_vx_vy(1, 2);
    assert_eq!(cpu.v[1], 9);
    assert_eq!(cpu.v[0xF], 0);
}

#[test]
fn shr_takes_low_bit_into_flag() {
    let mut cpu = cpu_with(&[(4, 0b0000_0011)]);
    assert_eq!(cpu.shr_vx_vy(4, 0), NextPc::Next);
    assert_eq!(cpu.v[4], 0b0000_0001);
    assert_eq!(cpu.v[0xF], 1);
    cpu.v[4] = 0b0000_0100;
    cpu.shr_vx_vy(4, 0);
    assert_eq!(cpu.v[4], 0b0000_0010);
    assert_eq!(cpu.v[0xF], 0);
}

#[test]
fn shl_takes_high_bit_into_flag() {
    let mut cpu = cpu_with(&[(4, 0b1000_0001)]);
    assert_eq!(cpu.shl_vx_vy(4, 0), NextPc::Next);
    assert_eq!(cpu.v[4], 0b0000_0010);
    assert_eq!(cpu.v[0xF], 1);
    cpu.v[4] = 0b0100_0000;
    cpu.shl_vx_vy(4, 0);
    assert_eq!(cpu.v[4], 0b1000_0000);
    assert_eq!(cpu.v[0xF], 0);
}

#[test]
fn bitwise_register_ops() {
    let mut cpu = cpu_with(&[(1, 0b1100), (2, 0b1010)]);
    cpu.or_vx_vy(1, 2);
    assert_eq!(cpu.v[1], 0b1110);
    cpu.v[1] = 0b1100;
    cpu.and_vx_vy(1, 2);
    assert_eq!(cpu.v[1], 0b1000);
    cpu.v[1] = 0b1100;
    cpu.xor_vx_vy(1, 2);
    assert_eq!(cpu.v[1], 0b0110);
    cpu.ld_vx_vy(1, 2);
    assert_eq!(cpu.v[1], 0b1010);
    assert_eq!(cpu.v[0xF], 0);
}

#[test]
fn skips_compare_registers_and_bytes() {
    let cpu = cpu_with(&[(1, 0x42), (2, 0x42), (3, 0x07)]);
    assert_eq!(cpu.se_vx_byte(1, 0x4, 0x2), NextPc::Skip);
    assert_eq!(cpu.se_vx_byte(1, 0x4, 0x3), NextPc::Next);
    assert_eq!(cpu.sne_vx_byte(1, 0x4, 0x2), NextPc::Next);
    assert_eq!(cpu.sne_vx_byte(1, 0x4, 0x3), NextPc::Skip);
    assert_eq!(cpu.se_vx_vy(1, 2), NextPc::Skip);
    assert_eq!(cpu.se_vx_vy(1, 3), NextPc::Next);
    assert_eq!(cpu.sne_vx_vy(1, 2), NextPc::Next);
    assert_eq!(cpu.sne_vx_vy(1, 3), NextPc::Skip);
}

#[test]
fn jp_addr_sets_pc_overriding_increment() {
    let mut cpu = Cpu::new();
    cpu.load_rom(&[0x11, 0x23]);
    assert_eq!(cpu.jp_addr(1, 2, 3), NextPc::Jump(0x123));
    assert_eq!(cpu.cycle_with(0), Ok(NextPc::Jump(0x123)));
    assert_eq!(cpu.pc, 0x123);
}

#[test]
fn jp_v0_addr_adds_v0() {
    let cpu = cpu_with(&[(0, 0xFF)]);
    assert_eq!(cpu.jp_v0_addr(0xF, 0xF, 0xF), NextPc::Jump(0x10FE));
}

#[test]
fn ld_i_and_add_i() {
    let mut cpu = cpu_with(&[(5, 0x10)]);
    assert_eq!(cpu.ld_i_addr(0xA, 0xB, 0xC), NextPc::Next);
    assert_eq!(cpu.i, 0xABC);
    cpu.add_i_vx(5);
    assert_eq!(cpu.i, 0xACC);
    cpu.i = 0xFFFF;
    cpu.add_i_vx(5);
    assert_eq!(cpu.i, 0x000F);
}

#[test]
fn timers_are_plain_storage() {
    let mut cpu = cpu_with(&[(2, 60), (3, 30)]);
    cpu.ld_dt_vx(2);
    assert_eq!(cpu.delay, 60);
    cpu.ld_st_vx(3);
    assert_eq!(cpu.sound, 30);
    cpu.ld_vx_dt(7);
    assert_eq!(cpu.v[7], 60);
    assert_eq!(cpu.delay, 60);
}

#[test]
fn rnd_masks_random_byte() {
    let mut cpu = Cpu::new();
    cpu.rnd_vx_byte_from(6, 0x0, 0xF, 0xAB);
    assert_eq!(cpu.v[6], 0x0B);
    cpu.rnd_vx_byte_from(6, 0xF, 0x0, 0xAB);
    assert_eq!(cpu.v[6], 0xA0);
    for _ in 0..50 {
        cpu.rnd_vx_byte(6, 0x0, 0x5);
        assert_eq!(cpu.v[6] & !0x05, 0);
    }
    cpu.rnd_vx_byte(6, 0x0, 0x0);
    assert_eq!(cpu.v[6], 0);
}

#[test]
fn call_then_ret_returns_to_stale_slot() {
    let mut cpu = Cpu::new();
    cpu.stack[1] = 0x0ABC;
    assert_eq!(cpu.call_addr(0x3, 0x0, 0x0), NextPc::Jump(0x300));
    assert_eq!(cpu.sp, 1);
    assert_eq!(cpu.stack[1], 0x0ABC);
    assert_eq!(cpu.ret(), NextPc::Jump(0x0ABC));
    assert_eq!(cpu.sp, 0);
}

#[test]
fn call_and_ret_through_cycles() {
    let mut cpu = Cpu::new();
    // CALL 0x300 at 0x200, RET at 0x300
    cpu.load_rom(&[0x23, 0x00]);
    cpu.ram[0x300] = 0x00;
    cpu.ram[0x301] = 0xEE;
    assert_eq!(cpu.cycle_with(0), Ok(NextPc::Jump(0x300)));
    assert_eq!(cpu.pc, 0x300);
    assert_eq!(cpu.cycle_with(0), Ok(NextPc::Jump(0x0)));
    assert_eq!(cpu.pc, 0x0);
    assert_eq!(cpu.sp, 0);
}

#[test]
fn two_cycles_run_load_then_add() {
    let mut cpu = Cpu::new();
    cpu.init_ram();
    cpu.load_rom(&[0x60, 0x05, 0x70, 0x03]);
    assert_eq!(cpu.cycle(), Ok(NextPc::Next));
    assert_eq!(cpu.cycle(), Ok(NextPc::Next));
    assert_eq!(cpu.v[0], 8);
    assert_eq!(cpu.pc, 0x204);
}

#[test]
fn unrecognized_instruction_is_ignored() {
    let mut cpu = cpu_with(&[(1, 11), (0xF, 3)]);
    cpu.i = 0x123;
    cpu.load_rom(&[0x00, 0x00]);
    let before_v = cpu.v;
    assert_eq!(cpu.cycle_with(0), Ok(NextPc::Next));
    assert_eq!(cpu.v, before_v);
    assert_eq!(cpu.i, 0x123);
    assert_eq!(cpu.sp, 0);
    assert_eq!(cpu.pc, 0x202);
    assert_eq!(cpu.execute((0x8, 0x1, 0x2, 0x8), 0), NextPc::Next);
    assert_eq!(cpu.execute((0xE, 0x1, 0x9, 0xE), 0), NextPc::Next);
    assert_eq!(cpu.v, before_v);
}

#[test]
fn execute_dispatches_by_pattern() {
    let mut cpu = Cpu::new();
    assert_eq!(cpu.execute((0x6, 0x2, 0x1, 0x7), 0), NextPc::Next);
    assert_eq!(cpu.v[2], 0x17);
    assert_eq!(cpu.execute((0x3, 0x2, 0x1, 0x7), 0), NextPc::Skip);
    assert_eq!(cpu.execute((0xC, 0x2, 0x3, 0xC), 0xFF), NextPc::Next);
    assert_eq!(cpu.v[2], 0x3C);
    assert_eq!(cpu.execute((0xF, 0x2, 0x1, 0x5), 0), NextPc::Next);
    assert_eq!(cpu.delay, 0x3C);
    assert_eq!(cpu.execute((0xB, 0x1, 0x0, 0x0), 0), NextPc::Jump(0x100));
}

#[test]
fn fault_on_fetch_past_memory() {
    let mut cpu = Cpu::new();
    cpu.pc = 0xFFE;
    assert_eq!(cpu.cycle_with(0), Err(Fault::PcOutOfBounds));
    assert_eq!(cpu.pc, 0xFFE);
    cpu.pc = 0xFFD;
    assert_eq!(cpu.cycle_with(0), Ok(NextPc::Next));
}

#[test]
fn fault_on_ret_with_empty_stack() {
    let mut cpu = Cpu::new();
    cpu.load_rom(&[0x00, 0xEE]);
    assert_eq!(cpu.cycle_with(0), Err(Fault::StackUnderflow));
    assert_eq!(cpu.pc, 0x200);
    assert_eq!(cpu.sp, 0);
}

#[test]
fn fault_on_call_with_full_stack() {
    let mut cpu = Cpu::new();
    cpu.load_rom(&[0x22, 0x00]);
    cpu.sp = 15;
    assert_eq!(cpu.cycle_with(0), Err(Fault::StackOverflow));
    assert_eq!(cpu.sp, 15);
    cpu.sp = 14;
    assert_eq!(cpu.cycle_with(0), Ok(NextPc::Jump(0x200)));
    assert_eq!(cpu.sp, 15);
}
