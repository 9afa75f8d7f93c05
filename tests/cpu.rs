use nemulator::cpu::CPU;
use nemulator::interrupts::Interrupt;
use nemulator::registers::{Flag, Reg, RegW};

fn cpu_with_program(program: &[u8]) -> CPU {
    let mut cpu = CPU::new();
    let mut rom = vec![0u8; 0x8000];
    for (i, b) in program.iter().enumerate() {
        rom[0x100 + i] = *b;
    }
    cpu.memory.load_rom(&rom);
    cpu
}

#[test]
fn boot_handoff_nop_takes_one_machine_cycle() {
    let mut cpu = cpu_with_program(&[0x00]);
    assert_eq!(cpu.pc, 0x0100);
    assert_eq!(cpu.sp, 0xFFFE);
    let flags = cpu.registers.F;
    cpu.step_instruction();
    assert_eq!(cpu.pc, 0x0101);
    assert_eq!(cpu.t_cycles, 4);
    assert_eq!(cpu.registers.F, flags);
    assert_eq!(cpu.registers.A, 0x01);
    assert_eq!(cpu.registers.F, 0xB0);
}

#[test]
fn fetch_wraps_pc_at_top_of_address_space() {
    let mut cpu = CPU::new();
    cpu.pc = 0xFFFF;
    cpu.memory.write(0xFFFF, 0x5A);
    let b = cpu.fetch();
    assert_eq!(b, 0x5A);
    assert_eq!(cpu.pc, 0x0000);
}

#[test]
fn stack_push_then_pop_round_trips() {
    for v in [0x0000u16, 0x1234, 0xBEEF, 0xFFFF] {
        let mut cpu = CPU::new();
        cpu.sp = 0xFFFE;
        cpu.stack_push(v);
        assert_eq!(cpu.sp, 0xFFFC);
        assert_eq!(cpu.memory.read(0xFFFD), (v >> 8) as u8);
        assert_eq!(cpu.memory.read(0xFFFC), (v & 0xFF) as u8);
        let r = cpu.stack_pop();
        assert_eq!(r, v);
        assert_eq!(cpu.sp, 0xFFFE);
    }
}

#[test]
fn stack_round_trip_in_work_ram() {
    let mut cpu = CPU::new();
    cpu.sp = 0xD000;
    cpu.stack_push(0xA55A);
    assert_eq!(cpu.stack_pop(), 0xA55A);
    assert_eq!(cpu.sp, 0xD000);
}

#[test]
fn daa_after_bcd_addition() {
    let mut cpu = CPU::new();
    cpu.registers.A = 0x45;
    cpu.registers.B = 0x38;
    cpu.registers.F = 0;
    cpu.reg_add_reg(Reg::A, Reg::B);
    assert_eq!(cpu.registers.A, 0x7D);
    cpu.daa();
    assert_eq!(cpu.registers.A, 0x83);
    assert!(!cpu.registers.get_flag(Flag::C));
    assert!(!cpu.registers.get_flag(Flag::H));
    assert!(!cpu.registers.get_flag(Flag::Z));
}

#[test]
fn daa_with_decimal_carry() {
    let mut cpu = CPU::new();
    cpu.registers.A = 0x99;
    cpu.registers.B = 0x01;
    cpu.registers.F = 0;
    cpu.reg_add_reg(Reg::A, Reg::B);
    assert_eq!(cpu.registers.A, 0x9A);
    cpu.daa();
    assert_eq!(cpu.registers.A, 0x00);
    assert!(cpu.registers.get_flag(Flag::C));
    assert!(cpu.registers.get_flag(Flag::Z));
}

#[test]
fn flags_low_nibble_stays_clear() {
    let mut cpu = cpu_with_program(&[
        0x3E, 0xFF, // LD A, 0xFF
        0xC6, 0x01, // ADD A, 1
        0xD6, 0x10, // SUB 0x10
        0xE6, 0x0F, // AND 0x0F
        0xF6, 0xF0, // OR 0xF0
        0xEE, 0xAA, // XOR 0xAA
        0x27, // DAA
        0x17, // RLA
        0xCB, 0x37, // SWAP A
        0x3F, // CCF
        0x2F, // CPL
    ]);
    for _ in 0..12 {
        cpu.step_instruction();
        assert_eq!(cpu.registers.F & 0x0F, 0);
    }
}

#[test]
fn pop_af_clears_low_nibble_of_flags() {
    let mut cpu = cpu_with_program(&[0xF1]);
    cpu.sp = 0xC000;
    cpu.memory.write(0xC000, 0xFF);
    cpu.memory.write(0xC001, 0x12);
    cpu.step_instruction();
    assert_eq!(cpu.registers.A, 0x12);
    assert_eq!(cpu.registers.F, 0xF0);
    assert_eq!(cpu.sp, 0xC002);
}

#[test]
fn add_sets_half_carry_and_carry() {
    let mut cpu = CPU::new();
    cpu.registers.A = 0x3A;
    cpu.registers.B = 0xC6;
    cpu.reg_add_reg(Reg::A, Reg::B);
    assert_eq!(cpu.registers.A, 0x00);
    assert_eq!(cpu.registers.F, 0xB0);
}

#[test]
fn sub_and_compare_flags() {
    let mut cpu = CPU::new();
    cpu.registers.A = 0x3E;
    cpu.registers.E = 0x3E;
    cpu.reg_sub_reg(Reg::A, Reg::E);
    assert_eq!(cpu.registers.A, 0);
    assert_eq!(cpu.registers.F, 0xC0);
    cpu.registers.A = 0x3E;
    cpu.registers.B = 0x40;
    cpu.reg_cp_reg(Reg::A, Reg::B);
    assert_eq!(cpu.registers.A, 0x3E);
    assert_eq!(cpu.registers.F, 0x50);
}

#[test]
fn logical_operations_fix_half_carry_and_carry() {
    let mut cpu = CPU::new();
    cpu.registers.A = 0x5A;
    cpu.registers.B = 0x3F;
    cpu.reg_and_reg(Reg::A, Reg::B);
    assert_eq!(cpu.registers.A, 0x1A);
    assert_eq!(cpu.registers.F, 0x20);
    cpu.reg_or_reg(Reg::A, Reg::B);
    assert_eq!(cpu.registers.A, 0x3F);
    assert_eq!(cpu.registers.F, 0x00);
    cpu.reg_xor_reg(Reg::A, Reg::A);
    assert_eq!(cpu.registers.A, 0);
    assert_eq!(cpu.registers.F, 0x80);
}

#[test]
fn adc_and_sbc_use_carry() {
    let mut cpu = CPU::new();
    cpu.registers.A = 0xE1;
    cpu.registers.E = 0x0F;
    cpu.registers.set_flag(Flag::C, true);
    cpu.reg_adc_reg(Reg::A, Reg::E);
    assert_eq!(cpu.registers.A, 0xF1);
    assert_eq!(cpu.registers.F, 0x20);
    cpu.registers.A = 0x3B;
    cpu.registers.H = 0x2A;
    cpu.registers.set_flag(Flag::C, true);
    cpu.reg_sbc_reg(Reg::A, Reg::H);
    assert_eq!(cpu.registers.A, 0x10);
    assert_eq!(cpu.registers.F, 0x40);
}

#[test]
fn inc_dec_keep_carry() {
    let mut cpu = CPU::new();
    cpu.registers.F = 0x10;
    cpu.registers.B = 0x0F;
    cpu.inc_reg(Reg::B);
    assert_eq!(cpu.registers.B, 0x10);
    assert_eq!(cpu.registers.F, 0x30);
    cpu.registers.C = 0x01;
    cpu.dec_reg(Reg::C);
    assert_eq!(cpu.registers.C, 0);
    assert_eq!(cpu.registers.F, 0xD0);
}

#[test]
fn add_hl_sixteen_bit_flags() {
    let mut cpu = CPU::new();
    cpu.registers.set_regW(RegW::HL, 0x8A23);
    cpu.registers.set_regW(RegW::BC, 0x0605);
    cpu.registers.F = 0x80;
    cpu.regW_add_regW(RegW::HL, RegW::BC);
    assert_eq!(cpu.registers.get_regW(RegW::HL), 0x9028);
    assert_eq!(cpu.registers.F, 0xA0);
    cpu.registers.set_regW(RegW::HL, 0x8A23);
    cpu.regW_add_regW(RegW::HL, RegW::HL);
    assert_eq!(cpu.registers.get_regW(RegW::HL), 0x1446);
    assert_eq!(cpu.registers.F, 0xB0);
}

#[test]
fn rotates_and_shifts() {
    let mut cpu = CPU::new();
    cpu.registers.F = 0;
    cpu.registers.A = 0x85;
    cpu.rlca();
    assert_eq!(cpu.registers.A, 0x0B);
    assert_eq!(cpu.registers.F, 0x10);
    cpu.registers.B = 0x80;
    cpu.registers.F = 0;
    cpu.rl(Reg::B);
    assert_eq!(cpu.registers.B, 0x00);
    assert_eq!(cpu.registers.F, 0x90);
    cpu.registers.D = 0x01;
    cpu.registers.F = 0;
    cpu.srl(Reg::D);
    assert_eq!(cpu.registers.D, 0);
    assert_eq!(cpu.registers.F, 0x90);
    cpu.registers.E = 0x8A;
    cpu.sra(Reg::E);
    assert_eq!(cpu.registers.E, 0xC5);
    assert_eq!(cpu.registers.F, 0x00);
    cpu.registers.L = 0xF1;
    cpu.swap(Reg::L);
    assert_eq!(cpu.registers.L, 0x1F);
    cpu.registers.A = 0x01;
    cpu.registers.F = 0;
    cpu.rrca();
    assert_eq!(cpu.registers.A, 0x80);
    assert_eq!(cpu.registers.F, 0x10);
}

#[test]
fn bit_res_set() {
    let mut cpu = CPU::new();
    cpu.registers.F = 0x10;
    cpu.registers.A = 0x80;
    cpu.bit(7, Reg::A);
    assert_eq!(cpu.registers.F, 0x30);
    cpu.bit(6, Reg::A);
    assert_eq!(cpu.registers.F, 0xB0);
    cpu.res(7, Reg::A);
    assert_eq!(cpu.registers.A, 0);
    cpu.set(3, Reg::A);
    assert_eq!(cpu.registers.A, 0x08);
}

#[test]
fn relative_jump_uses_signed_displacement() {
    let mut cpu = cpu_with_program(&[0x18, 0xFE]);
    cpu.step_instruction();
    assert_eq!(cpu.pc, 0x0100);
    let mut cpu = cpu_with_program(&[0x18, 0x05]);
    cpu.step_instruction();
    assert_eq!(cpu.pc, 0x0107);
}

#[test]
fn conditional_jump_costs_more_when_taken() {
    let mut cpu = cpu_with_program(&[0x20, 0x05]);
    cpu.registers.F = 0x80;
    cpu.step_instruction();
    assert_eq!(cpu.pc, 0x0102);
    assert_eq!(cpu.t_cycles, 8);
    let mut cpu = cpu_with_program(&[0x20, 0x05]);
    cpu.registers.F = 0x00;
    cpu.step_instruction();
    assert_eq!(cpu.pc, 0x0107);
    assert_eq!(cpu.t_cycles, 12);
}

#[test]
fn call_and_return() {
    let mut cpu = cpu_with_program(&[0xCD, 0x00, 0x02]);
    let mut rom = vec![0u8; 0x8000];
    rom[0x100] = 0xCD;
    rom[0x101] = 0x00;
    rom[0x102] = 0x02;
    rom[0x200] = 0xC9;
    cpu.memory.load_rom(&rom);
    cpu.step_instruction();
    assert_eq!(cpu.pc, 0x0200);
    assert_eq!(cpu.sp, 0xFFFC);
    assert_eq!(cpu.memory.read(0xFFFD), 0x01);
    assert_eq!(cpu.memory.read(0xFFFC), 0x03);
    cpu.step_instruction();
    assert_eq!(cpu.pc, 0x0103);
    assert_eq!(cpu.sp, 0xFFFE);
}

#[test]
fn loads_through_memory() {
    let mut cpu = cpu_with_program(&[
        0x21, 0x00, 0xC0, // LD HL, 0xC000
        0x36, 0x42, // LD (HL), 0x42
        0x7E, // LD A, (HL)
        0x22, // LD (HL+), A
        0xEA, 0x10, 0xC0, // LD (0xC010), A
    ]);
    for _ in 0..5 {
        cpu.step_instruction();
    }
    assert_eq!(cpu.registers.A, 0x42);
    assert_eq!(cpu.registers.get_regW(RegW::HL), 0xC001);
    assert_eq!(cpu.memory.read(0xC000), 0x42);
    assert_eq!(cpu.memory.read(0xC010), 0x42);
}

#[test]
fn halt_waits_for_a_request() {
    let mut cpu = cpu_with_program(&[0x76, 0x00]);
    cpu.step_instruction();
    assert!(cpu.halted);
    let t = cpu.t_cycles;
    cpu.step_instruction();
    assert!(cpu.halted);
    assert_eq!(cpu.t_cycles, t.wrapping_add(4));
    cpu.memory.write(0xFF0F, 0x10);
    cpu.step_instruction();
    assert!(!cpu.halted);
}

#[test]
fn enable_interrupts_takes_effect_after_next_instruction() {
    let mut cpu = cpu_with_program(&[0xFB, 0x00, 0x00]);
    cpu.memory.write(0xFFFF, 0x04);
    cpu.memory.write(0xFF0F, 0x04);
    cpu.step_instruction();
    assert!(!cpu.ime);
    assert_eq!(cpu.pc, 0x0101);
    cpu.step_instruction();
    assert_eq!(cpu.pc, 0x0050);
    assert!(!cpu.ime);
}

#[test]
fn vblank_dispatched_before_timer() {
    let mut cpu = CPU::new();
    cpu.pc = 0x1234;
    cpu.ime = true;
    cpu.memory.write(0xFFFF, 0x05);
    cpu.memory.write(0xFF0F, 0x05);
    cpu.interrupt_poll();
    assert_eq!(cpu.pc, 0x0040);
    assert!(!cpu.ime);
    assert_eq!(cpu.memory.read(0xFF0F) & 0x01, 0);
    assert!(cpu.interrupt_queue.nodes.contains(&Interrupt::Timer));
    assert!(!cpu.interrupt_queue.nodes.contains(&Interrupt::VBlank));
    cpu.interrupt_poll();
    assert_eq!(cpu.pc, 0x0040);
    cpu.ime = true;
    cpu.interrupt_poll();
    assert_eq!(cpu.pc, 0x0050);
    assert!(cpu.interrupt_queue.nodes.is_empty());
}

#[test]
fn disabled_interrupt_stays_queued() {
    let mut cpu = CPU::new();
    cpu.ime = true;
    cpu.memory.write(0xFFFF, 0x00);
    cpu.memory.write(0xFF0F, 0x02);
    cpu.interrupt_poll();
    assert_eq!(cpu.pc, 0x0100);
    assert!(cpu.interrupt_queue.nodes.contains(&Interrupt::STAT));
    cpu.memory.write(0xFFFF, 0x02);
    cpu.interrupt_poll();
    assert_eq!(cpu.pc, 0x0048);
}

#[test]
fn interrupt_dispatch_pushes_pc() {
    let mut cpu = CPU::new();
    cpu.pc = 0x0150;
    cpu.sp = 0xDFFE;
    cpu.handle_interrupt(Interrupt::Joypad);
    assert_eq!(cpu.pc, 0x0060);
    assert_eq!(cpu.sp, 0xDFFC);
    assert_eq!(cpu.stack_pop(), 0x0150);
}

#[test]
fn joypad_register_reads_buttons() {
    let mut cpu = cpu_with_program(&[0xF0, 0x00]);
    cpu.input_states.a = true;
    cpu.input_states.down = true;
    cpu.memory.write(0xFF00, 0x20);
    cpu.step_instruction();
    assert_eq!(cpu.registers.A, 0xE7);
    let mut cpu = cpu_with_program(&[0xF0, 0x00]);
    cpu.input_states.a = true;
    cpu.memory.write(0xFF00, 0x10);
    cpu.step_instruction();
    assert_eq!(cpu.registers.A, 0xDE);
}

#[test]
fn timer_registers_through_bus() {
    let mut cpu = cpu_with_program(&[0x3E, 0x05, 0xE0, 0x07, 0xF0, 0x07]);
    for _ in 0..3 {
        cpu.step_instruction();
    }
    assert_eq!(cpu.timer.tac, 0x05);
    assert_eq!(cpu.registers.A, 0x05);
}

#[test]
fn serial_byte_goes_to_sink_when_transfer_enabled() {
    let mut cpu = CPU::new();
    cpu.memory.write(0xFF02, 0x81);
    cpu.write(0xFF01, b'P');
    assert_eq!(cpu.memory.serial_out, vec![b'P']);
    cpu.memory.write(0xFF02, 0x00);
    cpu.write(0xFF01, b'Q');
    assert_eq!(cpu.memory.serial_out, vec![b'P']);
    assert_eq!(cpu.memory.read(0xFF01), b'Q');
}

#[test]
fn extended_table_on_memory_operand() {
    let mut cpu = cpu_with_program(&[
        0x21, 0x00, 0xC0, // LD HL, 0xC000
        0x36, 0x81, // LD (HL), 0x81
        0xCB, 0x06, // RLC (HL)
        0xCB, 0x7E, // BIT 7, (HL)
        0xCB, 0xFE, // SET 7, (HL)
        0xCB, 0x86, // RES 0, (HL)
    ]);
    cpu.step_instruction();
    cpu.step_instruction();
    cpu.step_instruction();
    assert_eq!(cpu.memory.read(0xC000), 0x03);
    assert_eq!(cpu.registers.F, 0x10);
    cpu.step_instruction();
    assert_eq!(cpu.registers.F, 0xB0);
    cpu.step_instruction();
    cpu.step_instruction();
    assert_eq!(cpu.memory.read(0xC000), 0x82);
}

#[test]
fn push_and_pop_through_opcodes() {
    let mut cpu = cpu_with_program(&[
        0x01, 0x34, 0x12, // LD BC, 0x1234
        0xC5, // PUSH BC
        0xD1, // POP DE
    ]);
    cpu.step_instruction();
    cpu.step_instruction();
    assert_eq!(cpu.sp, 0xFFFC);
    cpu.step_instruction();
    assert_eq!(cpu.registers.get_regW(RegW::DE), 0x1234);
    assert_eq!(cpu.sp, 0xFFFE);
}

#[test]
fn high_page_loads() {
    let mut cpu = cpu_with_program(&[
        0x3E, 0x99, // LD A, 0x99
        0xE0, 0x80, // LDH (0x80), A
        0x3E, 0x00, // LD A, 0
        0xF0, 0x80, // LDH A, (0x80)
        0x0E, 0x81, // LD C, 0x81
        0xE2, // LD (C), A
    ]);
    for _ in 0..6 {
        cpu.step_instruction();
    }
    assert_eq!(cpu.registers.A, 0x99);
    assert_eq!(cpu.memory.read(0xFF81), 0x99);
}

#[test]
fn stack_pointer_offset_flags() {
    let mut cpu = cpu_with_program(&[0xE8, 0x01, 0xF8, 0xFF]);
    cpu.sp = 0x00FF;
    cpu.step_instruction();
    assert_eq!(cpu.sp, 0x0100);
    assert_eq!(cpu.registers.F, 0x30);
    cpu.step_instruction();
    assert_eq!(cpu.registers.get_regW(RegW::HL), 0x00FF);
    assert_eq!(cpu.registers.F, 0x00);
}

#[test]
fn halt_resumes_on_queued_but_disabled_interrupt() {
    let mut cpu = cpu_with_program(&[0x00, 0x76, 0x00]);
    cpu.memory.write(0xFFFF, 0x00);
    cpu.memory.write(0xFF0F, 0x04);
    cpu.step_instruction();
    assert!(cpu.interrupt_queue.nodes.contains(&Interrupt::Timer));
    cpu.step_instruction();
    assert!(!cpu.halted);
    assert_eq!(cpu.pc, 0x0102);
    assert!(cpu.interrupt_queue.nodes.contains(&Interrupt::Timer));
}

#[test]
fn cpu_writes_to_ly_are_ignored() {
    let mut cpu = CPU::new();
    cpu.write(0xFF44, 0x77);
    assert_eq!(cpu.memory.read(0xFF44), cpu.ppu.ly);
    assert_eq!(cpu.memory.read(0xFF44), 0);
}

#[test]
fn undefined_opcode_stops_the_run() {
    let mut cpu = cpu_with_program(&[0xD3]);
    assert!(!cpu.step_instruction());
    assert_eq!(cpu.pc, 0x0101);
    let mut cpu = cpu_with_program(&[0x00]);
    assert!(cpu.step_instruction());
}

#[test]
fn reti_enables_interrupts() {
    let mut cpu = cpu_with_program(&[0xD9]);
    cpu.sp = 0xC000;
    cpu.memory.write(0xC000, 0x34);
    cpu.memory.write(0xC001, 0x12);
    cpu.step_instruction();
    assert!(cpu.ime);
    assert_eq!(cpu.pc, 0x1234);
}

#[test]
fn daa_sum_of_one_hundred_or_more() {
    let mut cpu = CPU::new();
    cpu.registers.A = 0x55;
    cpu.registers.B = 0x55;
    cpu.registers.F = 0;
    cpu.reg_add_reg(Reg::A, Reg::B);
    cpu.daa();
    assert_eq!(cpu.registers.A, 0x10);
    assert!(cpu.registers.get_flag(Flag::C));
    let mut cpu = CPU::new();
    cpu.registers.A = 0x09;
    cpu.registers.B = 0x08;
    cpu.registers.F = 0;
    cpu.reg_add_reg(Reg::A, Reg::B);
    cpu.daa();
    assert_eq!(cpu.registers.A, 0x17);
    assert!(!cpu.registers.get_flag(Flag::C));
}

#[test]
fn hblank_idles_until_dot_budget() {
    let mut m = nemulator::memory::Memory::new();
    m.write(0xFF40, 0x91);
    let mut p = nemulator::ppu::PPU::new();
    while p.mode != 0 {
        p.step(&mut m);
    }
    let x = p.x;
    let ly = p.ly;
    p.step(&mut m);
    assert_eq!(p.mode, 0);
    assert_eq!(p.x, x);
    assert_eq!(p.ly, ly);
    while p.mode == 0 {
        p.step(&mut m);
    }
    assert_eq!(p.ly, ly + 1);
    assert_eq!(p.oam_pointer, 0);
    assert!(p.sprite_buffer.is_empty());
}
