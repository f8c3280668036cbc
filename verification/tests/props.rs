// Concrete checks of the properties the library states generally, the
// documented scenarios, the exact timing table, and the edge cases of the
// wrapping arithmetic.

use nes6502::bus::{Bus, FlatRam, Memory};
use nes6502::cpu::{Flag, StepError, CPU};

fn setup_cpu() -> CPU<FlatRam> {
    CPU::new(FlatRam::new())
}

const START: u16 = 0x8000;

fn load(cpu: &mut CPU<FlatRam>, addr: u16, bytes: &[u8]) {
    let mut a: u16 = addr;
    for &b in bytes {
        cpu.bus.write(a, b);
        a = a.wrapping_add(1);
    }
}

fn run_one(cpu: &mut CPU<FlatRam>, prog: &[u8]) -> u64 {
    load(cpu, START, prog);
    cpu.set_pc(START);
    cpu.step().unwrap()
}

// Indexed addressing wraps modulo 65536 and still reports the page cross.
#[test]
fn absolute_x_wraps_around_address_space() {
    let mut cpu = setup_cpu();
    cpu.set_pc(0x1000);
    cpu.bus.write(0x1000, 0xFF);
    cpu.bus.write(0x1001, 0xFF);
    cpu.set_x(0x02);
    let (addr, extra): (u16, u64) = cpu.addr_absolute_x();
    assert_eq!(addr, 0x0001);
    assert_eq!(extra, 1);
}

// The penalty is charged exactly when the high byte changes.
#[test]
fn cross_page_penalty_is_high_byte_inequality() {
    assert_eq!(CPU::<FlatRam>::cross_page_boundary_cycle_penalty(0x10FF, 0x1100), 1);
    assert_eq!(CPU::<FlatRam>::cross_page_boundary_cycle_penalty(0x10FE, 0x10FF), 0);
    assert_eq!(CPU::<FlatRam>::cross_page_boundary_cycle_penalty(0xFFFF, 0x0001), 1);
}

// Pushing then pulling returns the byte and restores the stack pointer,
// including across the wraparound at both ends of the pointer's range.
#[test]
fn stack_round_trip_restores_pointer() {
    let mut cpu = setup_cpu();
    let sp0: u8 = cpu.get_sp();
    cpu.push_stack(0x5A);
    assert_eq!(cpu.get_sp(), sp0.wrapping_sub(1));
    assert_eq!(cpu.pull_stack(), 0x5A);
    assert_eq!(cpu.get_sp(), sp0);

    cpu.set_sp(0x00);
    cpu.push_stack(0xC3);
    assert_eq!(cpu.get_sp(), 0xFF);
    assert_eq!(cpu.pull_stack(), 0xC3);
    assert_eq!(cpu.get_sp(), 0x00);
}

// The combined flag update: 0x00 sets Zero and clears Negative; 0x80 does
// the opposite; other flags stay put.
#[test]
fn set_zero_and_negative_rule() {
    let mut cpu = setup_cpu();
    cpu.set_zero_and_negative_flag(0x00);
    assert_eq!(cpu.get_flag(Flag::Zero), true);
    assert_eq!(cpu.get_flag(Flag::Negative), false);
    cpu.set_zero_and_negative_flag(0x80);
    assert_eq!(cpu.get_flag(Flag::Zero), false);
    assert_eq!(cpu.get_flag(Flag::Negative), true);
    assert_eq!(cpu.get_flag(Flag::InterruptDisable), true);
    assert_eq!(cpu.get_flag(Flag::Unused), true);
}

// The shift helpers and the carry they report.
#[test]
fn shift_carry_values() {
    assert_eq!(CPU::<FlatRam>::asl(0x80), (0x00, true));
    assert_eq!(CPU::<FlatRam>::lsr(0x01), (0x00, true));
    assert_eq!(CPU::<FlatRam>::lsr(0x80), (0x40, false));
    assert_eq!(CPU::<FlatRam>::asl(0x41), (0x82, false));
}

// LDA immediate of 0x80: accumulator loaded, Negative set, Zero clear,
// exactly two cycles.
#[test]
fn lda_immediate_scenario() {
    let mut cpu = setup_cpu();
    let cycles: u64 = run_one(&mut cpu, &[0xA9, 0x80]);
    assert_eq!(cycles, 2);
    assert_eq!(cpu.get_a(), 0x80);
    assert_eq!(cpu.get_flag(Flag::Negative), true);
    assert_eq!(cpu.get_flag(Flag::Zero), false);
}

// LDA absolute,X from base 0x00FF with X=1 reaches 0x0100 across a page
// boundary and costs 4 + 1 cycles.
#[test]
fn lda_absolute_x_page_cross_scenario() {
    let mut cpu = setup_cpu();
    cpu.set_x(0x01);
    cpu.bus.write(0x0100, 0x99);
    let cycles: u64 = run_one(&mut cpu, &[0xBD, 0xFF, 0x00]);
    assert_eq!(cycles, 5);
    assert_eq!(cpu.get_a(), 0x99);
}

// An opcode byte with no table entry halts with the illegal-opcode failure
// and mutates nothing but the fetch's program-counter advance.
#[test]
fn illegal_opcode_halts() {
    let mut cpu = setup_cpu();
    cpu.bus.write(START, 0x02);
    cpu.set_pc(START);
    cpu.set_a(0x77);
    let res: Result<u64, StepError> = cpu.step();
    assert_eq!(res, Err(StepError::IllegalOpcode(0x02)));
    assert_eq!(cpu.get_pc(), START + 1);
    assert_eq!(cpu.get_a(), 0x77);
}

// The base cycle costs of the timing table, one instruction per family and
// mode group.
#[test]
fn base_cycle_costs() {
    let mut cpu = setup_cpu();
    assert_eq!(run_one(&mut cpu, &[0xA5, 0x10]), 3); // LDA zp
    assert_eq!(run_one(&mut cpu, &[0xB5, 0x10]), 4); // LDA zp,X
    assert_eq!(run_one(&mut cpu, &[0xAD, 0x00, 0x10]), 4); // LDA abs
    assert_eq!(run_one(&mut cpu, &[0xA1, 0x10]), 6); // LDA (zp,X)
    assert_eq!(run_one(&mut cpu, &[0xB1, 0x10]), 5); // LDA (zp),Y no cross
    assert_eq!(run_one(&mut cpu, &[0x8D, 0x00, 0x10]), 4); // STA abs
    assert_eq!(run_one(&mut cpu, &[0x9D, 0x00, 0x10]), 5); // STA abs,X
    assert_eq!(run_one(&mut cpu, &[0x91, 0x10]), 6); // STA (zp),Y
    assert_eq!(run_one(&mut cpu, &[0x8E, 0x00, 0x10]), 4); // STX abs
    assert_eq!(run_one(&mut cpu, &[0x86, 0x10]), 3); // STX zp
    assert_eq!(run_one(&mut cpu, &[0x96, 0x10]), 4); // STX zp,Y
    assert_eq!(run_one(&mut cpu, &[0xAA]), 2); // TAX
    assert_eq!(run_one(&mut cpu, &[0x9A]), 2); // TXS
    assert_eq!(run_one(&mut cpu, &[0x48]), 3); // PHA
    assert_eq!(run_one(&mut cpu, &[0x68]), 4); // PLA
    assert_eq!(run_one(&mut cpu, &[0x08]), 3); // PHP
    assert_eq!(run_one(&mut cpu, &[0x28]), 4); // PLP
    assert_eq!(run_one(&mut cpu, &[0x0A]), 2); // ASL A
    assert_eq!(run_one(&mut cpu, &[0x06, 0x10]), 5); // ASL zp
    assert_eq!(run_one(&mut cpu, &[0x16, 0x10]), 6); // ASL zp,X
    assert_eq!(run_one(&mut cpu, &[0x0E, 0x00, 0x10]), 6); // ASL abs
    assert_eq!(run_one(&mut cpu, &[0x1E, 0x00, 0x10]), 7); // ASL abs,X
    assert_eq!(run_one(&mut cpu, &[0x5E, 0x00, 0x10]), 7); // LSR abs,X
}

// The program counter wraps modulo 65536 across the fetch.
#[test]
fn program_counter_wraps() {
    let mut cpu = setup_cpu();
    cpu.bus.write(0xFFFF, 0xA9); // LDA #imm at the top of the address space
    cpu.bus.write(0x0000, 0x42); // operand wraps to 0x0000
    cpu.set_pc(0xFFFF);
    let cycles: u64 = cpu.step().unwrap();
    assert_eq!(cycles, 2);
    assert_eq!(cpu.get_a(), 0x42);
    assert_eq!(cpu.get_pc(), 0x0001);
}

// Whole-register overwrites force the Unused bit back on.
#[test]
fn unused_bit_always_reads_one() {
    let mut cpu = setup_cpu();
    cpu.set_p(0x00);
    assert_eq!(cpu.get_p() & 0x20, 0x20);
    assert_eq!(cpu.get_flag(Flag::Unused), true);
    cpu.set_p(0xFF);
    assert_eq!(cpu.get_p(), 0xFF);
    // PLP masks the pulled byte the same way
    cpu.set_sp(0x7F);
    cpu.bus.write(0x0180, 0x00);
    load(&mut cpu, START, &[0x28]);
    cpu.set_pc(START);
    let _ = cpu.step().unwrap();
    assert_eq!(cpu.get_p(), 0x20);
}

// Masked flag set and get over every flag.
#[test]
fn flag_get_set_masks() {
    let mut cpu = setup_cpu();
    cpu.set_p(0x00);
    cpu.set_flag(Flag::Carry, true);
    cpu.set_flag(Flag::Decimal, true);
    cpu.set_flag(Flag::Overflow, true);
    assert_eq!(cpu.get_p(), 0x20 | 0x01 | 0x08 | 0x40);
    assert!(cpu.get_flag(Flag::Carry));
    assert!(!cpu.get_flag(Flag::Zero));
    assert!(cpu.get_flag(Flag::Decimal));
    assert!(cpu.get_flag(Flag::Overflow));
    cpu.set_flag(Flag::Carry, false);
    assert!(!cpu.get_flag(Flag::Carry));
    assert_eq!(cpu.get_p(), 0x20 | 0x08 | 0x40);
}

// The setters land in the named registers and nowhere else.
#[test]
fn register_setters_and_getters() {
    let mut cpu = setup_cpu();
    cpu.set_a(1);
    cpu.set_x(2);
    cpu.set_y(3);
    cpu.set_pc(0x1234);
    cpu.set_sp(0x80);
    assert_eq!(cpu.get_a(), 1);
    assert_eq!(cpu.get_x(), 2);
    assert_eq!(cpu.get_y(), 3);
    assert_eq!(cpu.get_pc(), 0x1234);
    assert_eq!(cpu.get_sp(), 0x80);
}

// The console bus services its RAM range through the memory capability.
#[test]
fn bus_ram_read_write() {
    let mut bus = Bus::new();
    assert_eq!(bus.read(0x0005), 0);
    bus.write(0x0005, 0xAB);
    assert_eq!(bus.read(0x0005), 0xAB);
    bus.write(0x07FF, 0x01);
    assert_eq!(bus.read(0x07FF), 0x01);
    // the register window of a fresh bus reads as zero
    assert_eq!(bus.read(0x2000), 0);
    assert_eq!(bus.read(0x2007), 0);
}
