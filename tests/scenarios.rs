use rustnes::cpu::{Cpu, Fault, PRG_ROM_BANK_SIZE, RAM_SIZE};
use rustnes::decode::{decode, AddressMode, Instr, Instruction};
use rustnes::flags::{CpuFlags, B_FLAG, C_FLAG, DX_FLAG, I_FLAG, N_FLAG, V_FLAG, Z_FLAG};
use rustnes::ppu::{Ppu, Spr};

fn bank(fill: u8) -> Vec<u8> {
    vec![fill; PRG_ROM_BANK_SIZE]
}

/// A CPU at `$8000` whose lower bank starts with `program`.
fn cpu_running(program: &[u8]) -> Cpu {
    let mut lower = bank(0xEA);
    lower[..program.len()].copy_from_slice(program);
    let mut cpu = Cpu::new((lower, bank(0x00)), Ppu::new());
    cpu.state.pc = 0x8000;
    cpu
}

#[test]
fn adc_immediate_carry_chain() {
    let mut cpu = cpu_running(&[0x69, 0x01]);
    cpu.state.a = 0xFF;
    let cycles = cpu.instr_run();
    assert_eq!(cycles, 2);
    assert_eq!(cpu.state.a, 0x00);
    assert_eq!(cpu.state.p, CpuFlags::none().with(C_FLAG | Z_FLAG));
    assert!(!cpu.state.p.contains(V_FLAG));
    assert!(!cpu.state.p.contains(N_FLAG));
}

#[test]
fn sbc_overflow() {
    let mut cpu = cpu_running(&[0xE9, 0x01]);
    cpu.state.a = 0x80;
    cpu.state.p.insert(C_FLAG);
    cpu.instr_run();
    assert_eq!(cpu.state.a, 0x7F);
    assert_eq!(cpu.state.p, CpuFlags::none().with(C_FLAG | V_FLAG));
}

#[test]
fn adc_matches_modular_sum_and_sign_rule() {
    for &(a, m, c) in &[(0x00u8, 0x00u8, 0u8), (0x7F, 0x01, 0), (0x80, 0x80, 1), (0x50, 0x50, 1), (0xD0, 0x90, 0), (0xFF, 0xFF, 1)] {
        let mut cpu = cpu_running(&[]);
        cpu.state.a = a;
        if c == 1 {
            cpu.state.p.insert(C_FLAG);
        }
        cpu.instr_exec(Instr::ADC, m);
        let sum = a as u32 + m as u32 + c as u32;
        let r = (sum % 256) as u8;
        assert_eq!(cpu.state.a, r);
        assert_eq!(cpu.state.p.contains(C_FLAG), sum >= 256);
        let overflow = (a >= 0x80) == (m >= 0x80) && (a >= 0x80) != (r >= 0x80);
        assert_eq!(cpu.state.p.contains(V_FLAG), overflow);
        assert_eq!(cpu.state.p.contains(Z_FLAG), r == 0);
        assert_eq!(cpu.state.p.contains(N_FLAG), r >= 0x80);
    }
}

#[test]
fn jsr_rts_round_trip() {
    let mut lower = bank(0xEA);
    lower[0] = 0x20;
    lower[1] = 0xAA;
    lower[2] = 0xBB;
    lower[0x3BAA] = 0x60;
    let mut cpu = Cpu::new((lower, bank(0x00)), Ppu::new());
    cpu.state.pc = 0x8000;
    assert_eq!(cpu.instr_run(), 6);
    assert_eq!(cpu.state.pc, 0xBBAA);
    assert_eq!(cpu.ram[0x01FF], 0x80);
    assert_eq!(cpu.ram[0x01FE], 0x02);
    assert_eq!(cpu.state.s, 0xFD);
    assert_eq!(cpu.instr_run(), 6);
    assert_eq!(cpu.state.pc, 0x8003);
    assert_eq!(cpu.state.s, 0xFF);
}

#[test]
fn jmp_indirect_takes_high_byte_from_same_page() {
    let mut upper = bank(0x00);
    upper[0x00FF] = 0xAA;
    upper[0x0000] = 0xBB;
    upper[0x0100] = 0xCC;
    let mut lower = bank(0xEA);
    lower[0] = 0x6C;
    lower[1] = 0xFF;
    lower[2] = 0xC0;
    let mut cpu = Cpu::new((lower, upper), Ppu::new());
    cpu.state.pc = 0x8000;
    assert_eq!(cpu.instr_run(), 5);
    assert_eq!(cpu.state.pc, 0xBBAA);
}

#[test]
fn brk_through_step_pushes_address_after_padding_byte() {
    let mut upper = bank(0x00);
    upper[0x3FFE] = 0xAA;
    upper[0x3FFF] = 0xBB;
    let mut lower = bank(0xEA);
    lower[0] = 0x00;
    let mut cpu = Cpu::new((lower, upper), Ppu::new());
    cpu.state.pc = 0x8000;
    assert_eq!(cpu.instr_run(), 7);
    assert_eq!(cpu.ram[0x01FF], 0x80);
    assert_eq!(cpu.ram[0x01FE], 0x02);
    assert_eq!(cpu.ram[0x01FD], DX_FLAG | B_FLAG);
    assert!(cpu.state.p.contains(I_FLAG));
    assert_eq!(cpu.state.pc, 0xBBAA);
    assert_eq!(cpu.state.s, 0xFC);
}

#[test]
fn indy_page_cross_costs_one_more_cycle() {
    let mut cpu = cpu_running(&[0xB1, 0x00]);
    cpu.ram[0x00] = 0xFF;
    cpu.ram[0x01] = 0x00;
    cpu.ram[0x0101] = 0x42;
    cpu.state.y = 2;
    assert_eq!(cpu.instr_run(), 6);
    assert_eq!(cpu.state.a, 0x42);

    let mut cpu = cpu_running(&[0x00]);
    cpu.ram[0x00] = 0xFF;
    cpu.ram[0x01] = 0x00;
    cpu.state.y = 2;
    assert_eq!(cpu.instr_mem_addr(AddressMode::INDY), (0x0101, true));
}

#[test]
fn absx_page_cross_penalty_only_for_reads() {
    let mut cpu = cpu_running(&[0xBD, 0xFF, 0x00, 0x9D, 0xFF, 0x00]);
    cpu.state.x = 1;
    cpu.ram[0x0100] = 0x07;
    assert_eq!(cpu.instr_run(), 5);
    assert_eq!(cpu.state.a, 0x07);
    assert_eq!(cpu.instr_run(), 5);
    assert_eq!(cpu.ram[0x0100], 0x07);
}

#[test]
fn taken_branch_across_page_costs_two_more() {
    let mut lower = bank(0xEA);
    lower[0x00FD] = 0x90;
    lower[0x00FE] = 0x01;
    let mut cpu = Cpu::new((lower, bank(0x00)), Ppu::new());
    cpu.state.pc = 0x80FD;
    assert_eq!(cpu.instr_run(), 4);
    assert_eq!(cpu.state.pc, 0x8100);

    let mut cpu = cpu_running(&[0xB0, 0x10]);
    assert_eq!(cpu.instr_run(), 2);
    assert_eq!(cpu.state.pc, 0x8002);
}

#[test]
fn always_on_bits_survive_a_program() {
    // SEC, ADC #$7F, CLC, CLV, LDX #$00, DEX, BIT $10, CLI, SED, CLD, ASL A, PHA, PLA
    let program = [0x38, 0x69, 0x7F, 0x18, 0xB8, 0xA2, 0x00, 0xCA, 0x24, 0x10, 0x58, 0xF8, 0xD8, 0x0A, 0x48, 0x68];
    let mut cpu = cpu_running(&program);
    cpu.ram[0x10] = 0xC0;
    for _ in 0..13 {
        cpu.instr_run();
        assert_eq!(cpu.state.p.bits & DX_FLAG, DX_FLAG);
    }
    assert_eq!(cpu.state.pc, 0x8010);
}

#[test]
fn dex_from_zero_wraps_and_sets_negative() {
    let mut cpu = cpu_running(&[0xCA]);
    cpu.instr_run();
    assert_eq!(cpu.state.x, 0xFF);
    assert_eq!(cpu.state.p, CpuFlags::none().with(N_FLAG));
}

#[test]
fn pha_pla_round_trip() {
    let mut cpu = cpu_running(&[0x48, 0xA9, 0x00, 0x68]);
    cpu.state.a = 0x9C;
    assert_eq!(cpu.instr_run(), 3);
    cpu.instr_run();
    assert_eq!(cpu.state.a, 0x00);
    assert_eq!(cpu.instr_run(), 4);
    assert_eq!(cpu.state.a, 0x9C);
    assert_eq!(cpu.state.s, 0xFF);
    assert_eq!(cpu.state.p, CpuFlags::none().with(N_FLAG));
}

#[test]
fn clc_twice_is_clc_once() {
    let mut once = cpu_running(&[]);
    once.state.p.insert(C_FLAG | V_FLAG);
    let mut twice = cpu_running(&[]);
    twice.state.p.insert(C_FLAG | V_FLAG);
    once.instr_exec(Instr::CLC, 0);
    twice.instr_exec(Instr::CLC, 0);
    twice.instr_exec(Instr::CLC, 0);
    assert_eq!(once.state, twice.state);
    assert_eq!(once.state.p, CpuFlags::none().with(V_FLAG));
}

#[test]
fn nop_changes_only_pc() {
    let mut cpu = cpu_running(&[0xEA]);
    cpu.state.a = 1;
    cpu.state.x = 2;
    cpu.state.y = 3;
    cpu.state.s = 0x80;
    cpu.state.p.insert(C_FLAG);
    let before = cpu.state;
    let ram = cpu.ram.clone();
    assert_eq!(cpu.instr_run(), 2);
    assert_eq!(cpu.state.pc, 0x8001);
    cpu.state.pc = before.pc;
    assert_eq!(cpu.state, before);
    assert_eq!(cpu.ram, ram);
    assert_eq!(cpu.fault, None);
}

#[test]
fn stores_to_ram_mirrors_land_in_ram() {
    // STA $0800 ; STA $1FFF ; STX $1234
    let mut cpu = cpu_running(&[0x8D, 0x00, 0x08, 0x8D, 0xFF, 0x1F, 0x8E, 0x34, 0x12]);
    cpu.state.a = 0x5A;
    cpu.state.x = 0xA5;
    cpu.instr_run();
    cpu.instr_run();
    cpu.instr_run();
    assert_eq!(cpu.ram[0x0000], 0x5A);
    assert_eq!(cpu.ram[0x07FF], 0x5A);
    assert_eq!(cpu.ram[0x0234], 0xA5);
    assert_eq!(cpu.read_byte(0x1000), 0x5A);
    assert_eq!(cpu.read_byte(0x0A34), 0xA5);
}

#[test]
fn bus_read_map() {
    let mut lower = bank(0x00);
    lower[0] = 0x12;
    lower[0x3FFF] = 0x34;
    let mut upper = bank(0x00);
    upper[0] = 0x56;
    upper[0x3FFF] = 0x78;
    let mut ppu = Ppu::new();
    ppu.status = 0x80;
    let mut cpu = Cpu::new((lower, upper), ppu);
    cpu.ram[0x0123] = 0x99;
    assert_eq!(cpu.read_byte(0x0123), 0x99);
    assert_eq!(cpu.read_byte(0x1923), 0x99);
    assert_eq!(cpu.read_byte(0x2002), 0x80);
    assert_eq!(cpu.read_byte(0x3FFA), 0x80);
    assert_eq!(cpu.read_byte(0x2000), 0x11);
    assert_eq!(cpu.read_byte(0x2007), 0x88);
    assert_eq!(cpu.read_byte(0x4015), 0x00);
    assert_eq!(cpu.read_byte(0x5000), 0x00);
    assert_eq!(cpu.read_byte(0x6000), 0x00);
    assert_eq!(cpu.read_byte(0x8000), 0x12);
    assert_eq!(cpu.read_byte(0xBFFF), 0x34);
    assert_eq!(cpu.read_byte(0xC000), 0x56);
    assert_eq!(cpu.read_byte(0xFFFF), 0x78);
    assert_eq!(cpu.read_addr(0xBFFF), 0x5634);
}

#[test]
fn illegal_writes_are_refused() {
    let mut cpu = cpu_running(&[]);
    assert_eq!(cpu.write_byte(0x2002, 1), Err(Fault::IllegalWrite(0x2002)));
    assert_eq!(cpu.write_byte(0x3FF2, 1), Err(Fault::IllegalWrite(0x3FF2)));
    assert_eq!(cpu.write_byte(0x8000, 1), Err(Fault::IllegalWrite(0x8000)));
    assert_eq!(cpu.write_byte(0xFFFF, 1), Err(Fault::IllegalWrite(0xFFFF)));
    assert_eq!(cpu.write_byte(0x2000, 1), Ok(()));
    assert_eq!(cpu.write_byte(0x6000, 1), Ok(()));
    assert_eq!(cpu.read_byte(0x8000), 0xEA);
    assert!(cpu.ram.iter().all(|&b| b == 0));
}

#[test]
fn unknown_opcode_is_reported_and_skipped() {
    let mut cpu = cpu_running(&[0x02, 0xEA]);
    assert_eq!(cpu.instr_run(), 2);
    assert_eq!(cpu.fault, Some(Fault::DecodeFailure(0x02)));
    assert_eq!(cpu.state.pc, 0x8001);
    cpu.instr_run();
    assert_eq!(cpu.fault, None);
}

#[test]
fn store_to_rom_is_reported_by_step() {
    let mut cpu = cpu_running(&[0x8D, 0x00, 0x80]);
    cpu.state.a = 0x11;
    assert_eq!(cpu.instr_run(), 4);
    assert_eq!(cpu.fault, Some(Fault::IllegalWrite(0x8000)));
    assert_eq!(cpu.read_byte(0x8000), 0x8D);
}

#[test]
fn run_cycles_overruns_into_deficit() {
    let mut cpu = cpu_running(&[]);
    let mut cycles: i32 = 5;
    assert_eq!(cpu.run_cycles(&mut cycles), Ok(()));
    assert_eq!(cycles, -1);
    assert_eq!(cpu.state.pc, 0x8003);

    let mut cycles: i32 = 0;
    assert_eq!(cpu.run_cycles(&mut cycles), Ok(()));
    assert_eq!(cycles, -2);
    assert_eq!(cpu.state.pc, 0x8004);
}

#[test]
fn run_cycles_stops_on_rom_write() {
    let mut cpu = cpu_running(&[0xEA, 0x8D, 0x00, 0xC0, 0xEA]);
    let mut cycles: i32 = 100;
    assert_eq!(cpu.run_cycles(&mut cycles), Err(Fault::IllegalWrite(0xC000)));
    assert_eq!(cycles, 94);
    assert_eq!(cpu.state.pc, 0x8004);
}

#[test]
fn reset_loads_vector() {
    let mut upper = bank(0x00);
    upper[0x3FFC] = 0x34;
    upper[0x3FFD] = 0x82;
    let mut cpu = Cpu::new((bank(0x00), upper), Ppu::new());
    cpu.reset();
    assert_eq!(cpu.state.pc, 0x8234);
    assert_eq!(cpu.state.s, 0xFF);
    assert_eq!(cpu.state.p, CpuFlags::none());
}

#[test]
fn decoder_covers_the_official_set() {
    assert_eq!(decode(0x69), Some(Instruction { instr: Instr::ADC, address_mode: AddressMode::IMM, cycles: 2 }));
    assert_eq!(decode(0x6C), Some(Instruction { instr: Instr::JMP, address_mode: AddressMode::IND, cycles: 5 }));
    assert_eq!(decode(0x1E), Some(Instruction { instr: Instr::ASL, address_mode: AddressMode::ABSX, cycles: 7 }));
    assert_eq!(decode(0x91), Some(Instruction { instr: Instr::STA, address_mode: AddressMode::INDY, cycles: 6 }));
    assert_eq!(decode(0xB6), Some(Instruction { instr: Instr::LDX, address_mode: AddressMode::ZPY, cycles: 4 }));
    assert_eq!(decode(0xFF), None);
    assert_eq!(decode(0x02), None);
    let known: Vec<Instruction> = (0..=255u8).filter_map(decode).collect();
    assert_eq!(known.len(), 151);
    let mut names: Vec<String> = known.iter().map(|i| format!("{:?}", i.instr)).collect();
    names.sort();
    names.dedup();
    assert_eq!(names.len(), 56);
    assert!(known.iter().all(|i| 2 <= i.cycles && i.cycles <= 7));
}

#[test]
fn flag_setters() {
    let mut p = CpuFlags::none();
    p.set_zn(0);
    assert_eq!(p, CpuFlags::none().with(Z_FLAG));
    p.set_zn(0x80);
    assert_eq!(p, CpuFlags::none().with(N_FLAG));
    p.set_v(0x50, 0x50, 0xA0);
    assert!(p.contains(V_FLAG));
    p.set_v(0x50, 0x10, 0x60);
    assert!(!p.contains(V_FLAG));
    p.set_c(0x100);
    assert!(p.contains(C_FLAG));
    p.set_c(0xFF);
    assert!(!p.contains(C_FLAG));
    p.insert(C_FLAG | I_FLAG);
    p.remove(I_FLAG);
    assert_eq!(p, CpuFlags::none().with(N_FLAG | C_FLAG));
    p.clear();
    assert_eq!(p.bits, 0x28);
}

#[test]
fn sprite_attributes() {
    let spr = Spr::new([0x10, 0x20, 0xE3, 0x40]);
    assert_eq!((spr.y, spr.index, spr.x), (0x10, 0x20, 0x40));
    assert_eq!(spr.color(), 0x0C);
    assert!(spr.has_priority());
    assert!(spr.h_flip());
    assert!(spr.v_flip());
    let plain = Spr::new([0, 0, 0x01, 0]);
    assert_eq!(plain.color(), 0x04);
    assert!(!plain.has_priority());
    assert!(!plain.h_flip());
    assert!(!plain.v_flip());
}

#[test]
fn power_on_state() {
    let cpu = Cpu::new((bank(0x00), bank(0x00)), Ppu::new());
    assert_eq!(cpu.state.pc, 0);
    assert_eq!((cpu.state.a, cpu.state.x, cpu.state.y, cpu.state.s), (0, 0, 0, 0xFF));
    assert_eq!(cpu.state.p.bits, 0x28);
    assert_eq!(cpu.ram.len(), RAM_SIZE);
    assert_eq!(cpu.fault, None);
}

