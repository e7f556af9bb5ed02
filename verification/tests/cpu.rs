use gameboy::cpu::CPU;
use gameboy::instructions::AllInstructions::{
    ADC, ADD, ADD16, ADDSP, AND, BIT, CALL, CCF, CP, CPL, DAA, DEC, DEC16, DI, EI, EMPTY, HALT,
    INC, INC16, JP, JR, LD, LD16, LDD, LDI, LDSP, NOP, OR, POP, PUSH, RES, RET, RETI, RL, RLA,
    RLC, RLCA, RR, RRA, RRC, RRCA, RST, SBC, SCF, SET, SLA, SRA, SRL, STOP, SUB, SWAP, XOR,
};
use gameboy::instructions::AllRegisters::{
    A, AF, B, BC, C, DE, E, F, H, HL, L, RBC, RFFC, RFFU8, RHL, RU16, SP, SPI8, U16, U8,
};
use gameboy::instructions::FlagChecks::{FA, FC, FNC, FNZ, FZ};
use gameboy::instructions::RstParameters::{R00H, R38H};
use gameboy::instructions::AllInstructions;
use gameboy::memory::MemoryBus;
use gameboy::registers::FlagsRegister;
use gameboy::rom::ROM;

fn machine(program: Vec<u8>) -> (CPU, MemoryBus) {
    let mut bus = MemoryBus::new(ROM::new(program));
    bus.sp = 0xFFFE;
    (CPU::new(), bus)
}

fn flags(zero: bool, subtract: bool, half_carry: bool, carry: bool) -> FlagsRegister {
    FlagsRegister { zero, subtract, half_carry, carry }
}

#[test]
fn a_new_processor_is_running_and_zeroed() {
    let cpu = CPU::new();
    assert!(!cpu.halted);
    assert_eq!(cpu.registers.get_af(), 0);
    assert_eq!(cpu.registers.get_hl(), 0);
}

#[test]
fn load_add_halt_program() {
    let (mut cpu, mut bus) = machine(vec![0x3E, 0x05, 0x06, 0x03, 0x80, 0x76]);
    let mut total = 0u32;
    while !cpu.halted {
        total += cpu.step(&mut bus) as u32;
    }
    assert_eq!(cpu.registers.a, 8);
    assert_eq!(cpu.registers.b, 3);
    assert!(!cpu.registers.f.zero);
    assert!(cpu.halted);
    assert_eq!(bus.pc, 6);
    assert_eq!(total, 8 + 8 + 4 + 4);
}

#[test]
fn a_halted_processor_does_nothing_and_takes_no_cycles() {
    let (mut cpu, mut bus) = machine(vec![0x76, 0x3E, 0x05]);
    assert_eq!(cpu.step(&mut bus), 4);
    assert!(cpu.halted);
    assert_eq!(cpu.step(&mut bus), 0);
    assert_eq!(cpu.step(&mut bus), 0);
    assert_eq!(bus.pc, 1);
    assert_eq!(cpu.registers.a, 0);
}

#[test]
fn add_sets_flags_from_the_sum() {
    let (mut cpu, mut bus) = machine(vec![]);
    cpu.registers.a = 0x3A;
    cpu.registers.b = 0xC6;
    assert_eq!(cpu.execute(&mut bus, ADD(B)), 1);
    assert_eq!(cpu.registers.a, 0x00);
    assert_eq!(cpu.registers.f, flags(true, false, true, true));

    cpu.registers.a = 0x0F;
    cpu.registers.b = 0x01;
    cpu.execute(&mut bus, ADD(B));
    assert_eq!(cpu.registers.a, 0x10);
    assert_eq!(cpu.registers.f, flags(false, false, true, false));

    cpu.registers.a = 0xF0;
    cpu.registers.b = 0x20;
    cpu.execute(&mut bus, ADD(B));
    assert_eq!(cpu.registers.a, 0x10);
    assert_eq!(cpu.registers.f, flags(false, false, false, true));
}

#[test]
fn adc_adds_the_carry_flag_not_a_constant() {
    let (mut cpu, mut bus) = machine(vec![]);
    cpu.registers.a = 0x10;
    cpu.registers.c = 0x01;
    cpu.registers.f.carry = false;
    cpu.execute(&mut bus, ADC(C));
    assert_eq!(cpu.registers.a, 0x11);
    cpu.registers.f.carry = true;
    cpu.execute(&mut bus, ADC(C));
    assert_eq!(cpu.registers.a, 0x13);
    assert_eq!(cpu.registers.f, flags(false, false, false, false));

    cpu.registers.a = 0xFF;
    cpu.registers.c = 0xFF;
    cpu.registers.f.carry = true;
    cpu.execute(&mut bus, ADC(C));
    assert_eq!(cpu.registers.a, 0xFF);
    assert_eq!(cpu.registers.f, flags(false, false, true, true));
}

#[test]
fn sub_and_cp_set_flags_from_the_difference() {
    let (mut cpu, mut bus) = machine(vec![]);
    cpu.registers.a = 0x3E;
    cpu.registers.e = 0x3E;
    cpu.execute(&mut bus, SUB(E));
    assert_eq!(cpu.registers.a, 0x00);
    assert_eq!(cpu.registers.f, flags(true, true, false, false));

    cpu.registers.a = 0x3E;
    cpu.registers.e = 0x0F;
    cpu.execute(&mut bus, SUB(E));
    assert_eq!(cpu.registers.a, 0x2F);
    assert_eq!(cpu.registers.f, flags(false, true, true, false));

    cpu.registers.a = 0x3E;
    cpu.registers.e = 0x40;
    cpu.execute(&mut bus, CP(E));
    assert_eq!(cpu.registers.a, 0x3E);
    assert_eq!(cpu.registers.f, flags(false, true, false, true));
}

#[test]
fn sbc_subtracts_the_carry_flag() {
    let (mut cpu, mut bus) = machine(vec![]);
    cpu.registers.a = 0x3B;
    cpu.registers.h = 0x2A;
    cpu.registers.f.carry = true;
    cpu.execute(&mut bus, SBC(H));
    assert_eq!(cpu.registers.a, 0x10);
    assert_eq!(cpu.registers.f, flags(false, true, false, false));

    cpu.registers.a = 0x00;
    cpu.registers.h = 0xFF;
    cpu.registers.f.carry = true;
    cpu.execute(&mut bus, SBC(H));
    assert_eq!(cpu.registers.a, 0x00);
    assert_eq!(cpu.registers.f, flags(true, true, true, true));
}

#[test]
fn logic_operations_set_their_fixed_flags() {
    let (mut cpu, mut bus) = machine(vec![]);
    cpu.registers.a = 0x5A;
    cpu.registers.l = 0x3F;
    cpu.execute(&mut bus, AND(L));
    assert_eq!(cpu.registers.a, 0x1A);
    assert_eq!(cpu.registers.f, flags(false, false, true, false));

    cpu.registers.a = 0x5A;
    cpu.registers.l = 0x0F;
    cpu.registers.f.carry = true;
    cpu.execute(&mut bus, OR(L));
    assert_eq!(cpu.registers.a, 0x5F);
    assert_eq!(cpu.registers.f, flags(false, false, false, false));

    cpu.registers.a = 0xFF;
    cpu.execute(&mut bus, XOR(A));
    assert_eq!(cpu.registers.a, 0x00);
    assert_eq!(cpu.registers.f, flags(true, false, false, false));

    cpu.registers.a = 0xF0;
    cpu.registers.l = 0x0F;
    cpu.execute(&mut bus, AND(L));
    assert_eq!(cpu.registers.f, flags(true, false, true, false));
}

#[test]
fn inc_and_dec_keep_the_carry_flag() {
    let (mut cpu, mut bus) = machine(vec![]);
    cpu.registers.f.carry = true;
    cpu.registers.b = 0xFF;
    assert_eq!(cpu.execute(&mut bus, INC(B)), 1);
    assert_eq!(cpu.registers.b, 0x00);
    assert_eq!(cpu.registers.f, flags(true, false, true, true));

    cpu.registers.b = 0x0F;
    cpu.execute(&mut bus, INC(B));
    assert_eq!(cpu.registers.b, 0x10);
    assert_eq!(cpu.registers.f, flags(false, false, true, true));

    cpu.registers.f.carry = false;
    cpu.registers.b = 0x01;
    cpu.execute(&mut bus, DEC(B));
    assert_eq!(cpu.registers.b, 0x00);
    assert_eq!(cpu.registers.f, flags(true, true, false, false));

    cpu.execute(&mut bus, DEC(B));
    assert_eq!(cpu.registers.b, 0xFF);
    assert_eq!(cpu.registers.f, flags(false, true, true, false));
}

#[test]
fn inc_of_memory_reads_and_writes_through_hl() {
    let (mut cpu, mut bus) = machine(vec![]);
    cpu.registers.set_hl(0xC100);
    bus.write_byte(0xC100, 0x41);
    assert_eq!(cpu.execute(&mut bus, INC(RHL)), 3);
    assert_eq!(bus.read_byte(0xC100), 0x42);
    assert_eq!(cpu.execute(&mut bus, DEC(RHL)), 3);
    assert_eq!(bus.read_byte(0xC100), 0x41);
}

#[test]
fn sixteen_bit_add_carries_from_bits_11_and_15_and_keeps_zero() {
    let (mut cpu, mut bus) = machine(vec![]);
    cpu.registers.f.zero = true;
    cpu.registers.set_hl(0x8A23);
    cpu.registers.set_bc(0x0605);
    assert_eq!(cpu.execute(&mut bus, ADD16(BC)), 2);
    assert_eq!(cpu.registers.get_hl(), 0x9028);
    assert_eq!(cpu.registers.f, flags(true, false, true, false));

    cpu.registers.f.zero = false;
    cpu.registers.set_hl(0x8A23);
    cpu.execute(&mut bus, ADD16(HL));
    assert_eq!(cpu.registers.get_hl(), 0x1446);
    assert_eq!(cpu.registers.f, flags(false, false, true, true));

    cpu.registers.set_hl(0xFFFF);
    bus.sp = 0x0001;
    cpu.execute(&mut bus, ADD16(SP));
    assert_eq!(cpu.registers.get_hl(), 0x0000);
    assert_eq!(cpu.registers.f, flags(false, false, true, true));
}

#[test]
fn sixteen_bit_inc_and_dec_wrap_and_leave_flags() {
    let (mut cpu, mut bus) = machine(vec![]);
    cpu.registers.set_flags(true, true, true, true);
    cpu.registers.set_de(0xFFFF);
    assert_eq!(cpu.execute(&mut bus, INC16(DE)), 2);
    assert_eq!(cpu.registers.get_de(), 0x0000);
    assert_eq!(cpu.execute(&mut bus, DEC16(DE)), 2);
    assert_eq!(cpu.registers.get_de(), 0xFFFF);
    bus.sp = 0x0000;
    cpu.execute(&mut bus, DEC16(SP));
    assert_eq!(bus.sp, 0xFFFF);
    assert_eq!(cpu.registers.f, flags(true, true, true, true));
}

#[test]
fn add_sp_takes_a_signed_offset_and_flags_from_the_low_byte() {
    let (mut cpu, mut bus) = machine(vec![0x02, 0xFF, 0x01]);
    bus.sp = 0xFFF8;
    assert_eq!(cpu.execute(&mut bus, ADDSP), 4);
    assert_eq!(bus.sp, 0xFFFA);
    assert_eq!(cpu.registers.f, flags(false, false, false, false));
    assert_eq!(bus.pc, 1);

    bus.sp = 0x0001;
    cpu.execute(&mut bus, ADDSP);
    assert_eq!(bus.sp, 0x0000);
    assert_eq!(cpu.registers.f, flags(false, false, true, true));

    bus.sp = 0x00FF;
    cpu.execute(&mut bus, ADDSP);
    assert_eq!(bus.sp, 0x0100);
    assert_eq!(cpu.registers.f, flags(false, false, true, true));
}

#[test]
fn ld_hl_sp_plus_offset_leaves_sp_alone() {
    let (mut cpu, mut bus) = machine(vec![0xFE]);
    bus.sp = 0xD000;
    assert_eq!(cpu.execute(&mut bus, LDSP(HL)), 3);
    assert_eq!(cpu.registers.get_hl(), 0xCFFE);
    assert_eq!(bus.sp, 0xD000);
    assert_eq!(cpu.registers.f, flags(false, false, false, false));
    bus.pc = 0;
    assert_eq!(cpu.execute(&mut bus, LD16(HL, SPI8)), 3);
    assert_eq!(cpu.registers.get_hl(), 0xCFFE);
}

#[test]
fn accumulator_rotates_clear_zero() {
    let (mut cpu, mut bus) = machine(vec![]);
    cpu.registers.a = 0x85;
    assert_eq!(cpu.execute(&mut bus, RLCA), 1);
    assert_eq!(cpu.registers.a, 0x0B);
    assert_eq!(cpu.registers.f, flags(false, false, false, true));

    cpu.registers.a = 0x95;
    cpu.registers.f.carry = true;
    assert_eq!(cpu.execute(&mut bus, RLA), 1);
    assert_eq!(cpu.registers.a, 0x2B);
    assert_eq!(cpu.registers.f, flags(false, false, false, true));

    cpu.registers.a = 0x3B;
    assert_eq!(cpu.execute(&mut bus, RRCA), 1);
    assert_eq!(cpu.registers.a, 0x9D);
    assert_eq!(cpu.registers.f, flags(false, false, false, true));

    cpu.registers.a = 0x81;
    cpu.registers.f.carry = false;
    assert_eq!(cpu.execute(&mut bus, RRA), 1);
    assert_eq!(cpu.registers.a, 0x40);
    assert_eq!(cpu.registers.f, flags(false, false, false, true));

    cpu.registers.a = 0x00;
    cpu.registers.f.carry = false;
    cpu.execute(&mut bus, RLCA);
    assert_eq!(cpu.registers.f, flags(false, false, false, false));
}

#[test]
fn register_rotates_and_shifts_set_zero_from_the_result() {
    let (mut cpu, mut bus) = machine(vec![]);
    cpu.registers.b = 0x85;
    assert_eq!(cpu.execute(&mut bus, RLC(B)), 2);
    assert_eq!(cpu.registers.b, 0x0B);
    assert_eq!(cpu.registers.f, flags(false, false, false, true));

    cpu.registers.l = 0x80;
    cpu.registers.f.carry = false;
    cpu.execute(&mut bus, RL(L));
    assert_eq!(cpu.registers.l, 0x00);
    assert_eq!(cpu.registers.f, flags(true, false, false, true));

    cpu.registers.c = 0x01;
    cpu.execute(&mut bus, RRC(C));
    assert_eq!(cpu.registers.c, 0x80);
    assert_eq!(cpu.registers.f, flags(false, false, false, true));

    cpu.registers.a = 0x01;
    cpu.registers.f.carry = false;
    cpu.execute(&mut bus, RR(A));
    assert_eq!(cpu.registers.a, 0x00);
    assert_eq!(cpu.registers.f, flags(true, false, false, true));

    cpu.registers.e = 0xFF;
    cpu.execute(&mut bus, SLA(E));
    assert_eq!(cpu.registers.e, 0xFE);
    assert_eq!(cpu.registers.f, flags(false, false, false, true));

    cpu.registers.a = 0x8A;
    cpu.execute(&mut bus, SRA(A));
    assert_eq!(cpu.registers.a, 0xC5);
    assert_eq!(cpu.registers.f, flags(false, false, false, false));

    cpu.registers.a = 0x01;
    cpu.execute(&mut bus, SRL(A));
    assert_eq!(cpu.registers.a, 0x00);
    assert_eq!(cpu.registers.f, flags(true, false, false, true));

    cpu.registers.a = 0xF1;
    cpu.registers.f.carry = true;
    cpu.execute(&mut bus, SWAP(A));
    assert_eq!(cpu.registers.a, 0x1F);
    assert_eq!(cpu.registers.f, flags(false, false, false, false));
}

#[test]
fn shifts_of_memory_cost_four_cycles() {
    let (mut cpu, mut bus) = machine(vec![]);
    cpu.registers.set_hl(0xC000);
    bus.write_byte(0xC000, 0x81);
    assert_eq!(cpu.execute(&mut bus, RR(RHL)), 4);
    assert_eq!(bus.read_byte(0xC000), 0x40);
    assert!(cpu.registers.f.carry);
    assert_eq!(cpu.execute(&mut bus, SWAP(RHL)), 4);
    assert_eq!(bus.read_byte(0xC000), 0x04);
}

#[test]
fn bit_tests_the_numbered_bit_and_keeps_carry() {
    let (mut cpu, mut bus) = machine(vec![]);
    cpu.registers.a = 0x80;
    cpu.registers.f.carry = true;
    assert_eq!(cpu.execute(&mut bus, BIT(7, A)), 2);
    assert_eq!(cpu.registers.f, flags(false, false, true, true));
    cpu.execute(&mut bus, BIT(0, A));
    assert_eq!(cpu.registers.f, flags(true, false, true, true));
    cpu.registers.f.carry = false;
    cpu.registers.set_hl(0xC000);
    bus.write_byte(0xC000, 0x10);
    assert_eq!(cpu.execute(&mut bus, BIT(4, RHL)), 3);
    assert_eq!(cpu.registers.f, flags(false, false, true, false));
}

#[test]
fn set_and_res_change_the_numbered_bit_and_no_flags() {
    let (mut cpu, mut bus) = machine(vec![]);
    cpu.registers.set_flags(true, false, true, false);
    for n in 0..8u8 {
        cpu.registers.a = 0x00;
        assert_eq!(cpu.execute(&mut bus, SET(n, A)), 2);
        assert_eq!(cpu.registers.a, 1u8 << n);
        cpu.execute(&mut bus, SET(n, A));
        assert_eq!(cpu.registers.a, 1u8 << n);
        cpu.registers.a = 0xFF;
        assert_eq!(cpu.execute(&mut bus, RES(n, A)), 2);
        assert_eq!(cpu.registers.a, !(1u8 << n));
        cpu.execute(&mut bus, RES(n, A));
        assert_eq!(cpu.registers.a, !(1u8 << n));
    }
    assert_eq!(cpu.registers.f, flags(true, false, true, false));
    cpu.registers.set_hl(0xC000);
    assert_eq!(cpu.execute(&mut bus, SET(3, RHL)), 4);
    assert_eq!(bus.read_byte(0xC000), 0x08);
    assert_eq!(cpu.execute(&mut bus, RES(3, RHL)), 4);
    assert_eq!(bus.read_byte(0xC000), 0x00);
}

#[test]
fn daa_after_addition_with_half_carry() {
    let (mut cpu, mut bus) = machine(vec![]);
    cpu.registers.a = 0x0F;
    cpu.registers.f = flags(false, false, true, false);
    assert_eq!(cpu.execute(&mut bus, DAA), 1);
    assert_eq!(cpu.registers.a, 0x15);
    assert_eq!(cpu.registers.f, flags(false, false, false, false));
}

#[test]
fn daa_corrects_sums_of_packed_decimals() {
    let (mut cpu, mut bus) = machine(vec![]);
    for x in 0..100u8 {
        for y in 0..100u8 {
            cpu.registers.a = (x / 10) << 4 | (x % 10);
            cpu.registers.b = (y / 10) << 4 | (y % 10);
            cpu.execute(&mut bus, ADD(B));
            cpu.execute(&mut bus, DAA);
            let sum = (x + y) % 100;
            assert_eq!(cpu.registers.a, (sum / 10) << 4 | (sum % 10));
            assert_eq!(cpu.registers.f.carry, x + y >= 100);
            assert_eq!(cpu.registers.f.zero, sum == 0);
            assert!(!cpu.registers.f.half_carry);
        }
    }
}

#[test]
fn daa_corrects_differences_of_packed_decimals() {
    let (mut cpu, mut bus) = machine(vec![]);
    for x in 0..100u8 {
        for y in 0..100u8 {
            cpu.registers.a = (x / 10) << 4 | (x % 10);
            cpu.registers.b = (y / 10) << 4 | (y % 10);
            cpu.execute(&mut bus, SUB(B));
            cpu.execute(&mut bus, DAA);
            let difference = (100 + x - y) % 100;
            assert_eq!(cpu.registers.a, (difference / 10) << 4 | (difference % 10));
            assert_eq!(cpu.registers.f.carry, x < y);
            assert!(cpu.registers.f.subtract);
        }
    }
}

#[test]
fn cpl_scf_ccf() {
    let (mut cpu, mut bus) = machine(vec![]);
    cpu.registers.a = 0x35;
    cpu.registers.f = flags(true, false, false, true);
    assert_eq!(cpu.execute(&mut bus, CPL), 1);
    assert_eq!(cpu.registers.a, 0xCA);
    assert_eq!(cpu.registers.f, flags(true, true, true, true));
    assert_eq!(cpu.execute(&mut bus, SCF), 1);
    assert_eq!(cpu.registers.f, flags(true, false, false, true));
    assert_eq!(cpu.execute(&mut bus, CCF), 1);
    assert_eq!(cpu.registers.f, flags(true, false, false, false));
    cpu.execute(&mut bus, CCF);
    assert_eq!(cpu.registers.f, flags(true, false, false, true));
}

#[test]
fn control_instructions() {
    let (mut cpu, mut bus) = machine(vec![]);
    assert_eq!(cpu.execute(&mut bus, NOP), 1);
    assert_eq!(cpu.execute(&mut bus, EMPTY), 1);
    assert_eq!(cpu.execute(&mut bus, STOP), 1);
    assert_eq!(cpu.execute(&mut bus, EI), 1);
    assert!(bus.ime);
    assert_eq!(cpu.execute(&mut bus, DI), 1);
    assert!(!bus.ime);
    assert_eq!(cpu.execute(&mut bus, HALT), 1);
    assert!(cpu.halted);
    assert_eq!(bus.pc, 0);
}

#[test]
fn loads_between_registers_memory_and_immediates() {
    let (mut cpu, mut bus) = machine(vec![0x42, 0x34, 0xC1, 0x80, 0x81]);
    assert_eq!(cpu.execute(&mut bus, LD(B, U8)), 2);
    assert_eq!(cpu.registers.b, 0x42);
    assert_eq!(cpu.execute(&mut bus, LD(A, B)), 1);
    assert_eq!(cpu.registers.a, 0x42);
    // LD (0xC134), A
    assert_eq!(cpu.execute(&mut bus, LD(RU16, A)), 4);
    assert_eq!(bus.read_byte(0xC134), 0x42);
    assert_eq!(bus.pc, 3);
    // LD (0xFF80), A
    cpu.registers.a = 0x99;
    assert_eq!(cpu.execute(&mut bus, LD(RFFU8, A)), 3);
    assert_eq!(bus.read_byte(0xFF80), 0x99);
    // LD A, (0xFF81)
    bus.write_byte(0xFF81, 0x77);
    assert_eq!(cpu.execute(&mut bus, LD(A, RFFU8)), 3);
    assert_eq!(cpu.registers.a, 0x77);
    cpu.registers.c = 0x82;
    assert_eq!(cpu.execute(&mut bus, LD(RFFC, A)), 2);
    assert_eq!(bus.read_byte(0xFF82), 0x77);
    cpu.registers.set_bc(0xC200);
    assert_eq!(cpu.execute(&mut bus, LD(RBC, A)), 2);
    assert_eq!(bus.read_byte(0xC200), 0x77);
    cpu.registers.set_hl(0xC200);
    assert_eq!(cpu.execute(&mut bus, LD(E, RHL)), 2);
    assert_eq!(cpu.registers.e, 0x77);
}

#[test]
fn load_of_an_immediate_into_memory_costs_three_cycles() {
    let (mut cpu, mut bus) = machine(vec![0x5A]);
    cpu.registers.set_hl(0xC000);
    assert_eq!(cpu.execute(&mut bus, LD(RHL, U8)), 3);
    assert_eq!(bus.read_byte(0xC000), 0x5A);
}

#[test]
fn load_from_an_immediate_address() {
    let (mut cpu, mut bus) = machine(vec![0x00, 0xC3]);
    bus.write_byte(0xC300, 0x21);
    assert_eq!(cpu.execute(&mut bus, LD(A, RU16)), 4);
    assert_eq!(cpu.registers.a, 0x21);
    assert_eq!(bus.pc, 2);
}

#[test]
fn ldi_and_ldd_step_hl() {
    let (mut cpu, mut bus) = machine(vec![]);
    cpu.registers.a = 0x11;
    cpu.registers.set_hl(0xC000);
    assert_eq!(cpu.execute(&mut bus, LDI(RHL, A)), 2);
    assert_eq!(bus.read_byte(0xC000), 0x11);
    assert_eq!(cpu.registers.get_hl(), 0xC001);
    cpu.registers.a = 0x22;
    assert_eq!(cpu.execute(&mut bus, LDD(RHL, A)), 2);
    assert_eq!(bus.read_byte(0xC001), 0x22);
    assert_eq!(cpu.registers.get_hl(), 0xC000);
    assert_eq!(cpu.execute(&mut bus, LDI(A, RHL)), 2);
    assert_eq!(cpu.registers.a, 0x11);
    assert_eq!(cpu.registers.get_hl(), 0xC001);
    cpu.registers.set_hl(0x0000);
    cpu.execute(&mut bus, LDD(A, RHL));
    assert_eq!(cpu.registers.get_hl(), 0xFFFF);
}

#[test]
fn sixteen_bit_loads() {
    let (mut cpu, mut bus) = machine(vec![0x34, 0x12, 0x00, 0xC1]);
    assert_eq!(cpu.execute(&mut bus, LD16(BC, U16)), 3);
    assert_eq!(cpu.registers.get_bc(), 0x1234);
    bus.sp = 0xABCD;
    // LD (0xC100), SP stores the low byte first.
    assert_eq!(cpu.execute(&mut bus, LD16(RU16, SP)), 5);
    assert_eq!(bus.read_byte(0xC100), 0xCD);
    assert_eq!(bus.read_byte(0xC101), 0xAB);
    cpu.registers.set_hl(0xD123);
    assert_eq!(cpu.execute(&mut bus, LD16(SP, HL)), 2);
    assert_eq!(bus.sp, 0xD123);
}

#[test]
fn push_and_pop_register_pairs() {
    let (mut cpu, mut bus) = machine(vec![]);
    cpu.registers.set_bc(0x1234);
    assert_eq!(cpu.execute(&mut bus, PUSH(BC)), 4);
    assert_eq!(bus.sp, 0xFFFC);
    assert_eq!(cpu.execute(&mut bus, POP(DE)), 3);
    assert_eq!(cpu.registers.get_de(), 0x1234);
    assert_eq!(bus.sp, 0xFFFE);
    cpu.registers.set_de(0x12FF);
    cpu.execute(&mut bus, PUSH(DE));
    cpu.execute(&mut bus, POP(AF));
    assert_eq!(cpu.registers.get_af(), 0x12F0);
}

#[test]
fn jumps_are_taken_on_condition() {
    let (mut cpu, mut bus) = machine(vec![0x00, 0x02, 0x00, 0x03]);
    cpu.registers.f.zero = true;
    assert_eq!(cpu.execute(&mut bus, JP(FNZ, U16)), 3);
    assert_eq!(bus.pc, 2);
    assert_eq!(cpu.execute(&mut bus, JP(FZ, U16)), 4);
    assert_eq!(bus.pc, 0x0300);
    cpu.registers.set_hl(0x1234);
    assert_eq!(cpu.execute(&mut bus, JP(FA, HL)), 1);
    assert_eq!(bus.pc, 0x1234);
}

#[test]
fn relative_jumps_count_from_the_next_instruction() {
    let (mut cpu, mut bus) = machine(vec![0x18, 0x02, 0x00, 0x00, 0x18, 0xFA, 0x20, 0x10, 0x28, 0x10]);
    assert_eq!(cpu.step(&mut bus), 12);
    assert_eq!(bus.pc, 4);
    assert_eq!(cpu.step(&mut bus), 12);
    assert_eq!(bus.pc, 0);
    bus.pc = 6;
    cpu.registers.f.zero = true;
    assert_eq!(cpu.execute(&mut bus, JR(FNZ)), 2);
    assert_eq!(bus.pc, 7);
    bus.pc = 8;
    assert_eq!(cpu.step(&mut bus), 12);
    assert_eq!(bus.pc, 0x1A);
    bus.pc = 9;
    cpu.registers.f.carry = true;
    assert_eq!(cpu.execute(&mut bus, JR(FC)), 3);
    assert_eq!(bus.pc, 0x1A);
    bus.pc = 9;
    assert_eq!(cpu.execute(&mut bus, JR(FNC)), 2);
    assert_eq!(bus.pc, 10);
    assert_eq!(cpu.execute(&mut bus, JR(FA)), 3);
}

#[test]
fn call_pushes_the_return_address_and_ret_pops_it() {
    let (mut cpu, mut bus) = machine(vec![0xCD, 0x10, 0x00, 0x76]);
    bus.write_byte(0xC000, 0);
    assert_eq!(cpu.step(&mut bus), 24);
    assert_eq!(bus.pc, 0x0010);
    assert_eq!(bus.sp, 0xFFFC);
    assert_eq!(bus.read_byte(0xFFFD), 0x00);
    assert_eq!(bus.read_byte(0xFFFC), 0x03);
    assert_eq!(cpu.execute(&mut bus, RET(FA)), 4);
    assert_eq!(bus.pc, 0x0003);
    assert_eq!(bus.sp, 0xFFFE);
}

#[test]
fn a_call_not_taken_still_skips_its_operand() {
    let (mut cpu, mut bus) = machine(vec![0x10, 0x00, 0x76]);
    cpu.registers.f.carry = false;
    assert_eq!(cpu.execute(&mut bus, CALL(FC, U16)), 3);
    assert_eq!(bus.pc, 2);
    assert_eq!(bus.sp, 0xFFFE);
    cpu.registers.f.carry = true;
    bus.pc = 0;
    assert_eq!(cpu.execute(&mut bus, CALL(FC, U16)), 6);
    assert_eq!(bus.pc, 0x0010);
}

#[test]
fn conditional_returns() {
    let (mut cpu, mut bus) = machine(vec![]);
    bus.push(0x1234);
    cpu.registers.f.zero = false;
    assert_eq!(cpu.execute(&mut bus, RET(FZ)), 2);
    assert_eq!(bus.pc, 0);
    assert_eq!(bus.sp, 0xFFFC);
    assert_eq!(cpu.execute(&mut bus, RET(FNZ)), 5);
    assert_eq!(bus.pc, 0x1234);
    assert_eq!(bus.sp, 0xFFFE);
}

#[test]
fn reti_returns_and_enables_interrupts() {
    let (mut cpu, mut bus) = machine(vec![]);
    bus.push(0x0150);
    assert_eq!(cpu.execute(&mut bus, RETI(FA)), 4);
    assert_eq!(bus.pc, 0x0150);
    assert!(bus.ime);
    assert_eq!(bus.sp, 0xFFFE);
}

#[test]
fn rst_pushes_pc_and_jumps_to_its_vector() {
    let (mut cpu, mut bus) = machine(vec![]);
    bus.pc = 0x0123;
    assert_eq!(cpu.execute(&mut bus, RST(R38H)), 4);
    assert_eq!(bus.pc, 0x0038);
    assert_eq!(bus.pop(), 0x0123);
    assert_eq!(cpu.execute(&mut bus, RST(R00H)), 4);
    assert_eq!(bus.pc, 0x0000);
}

#[test]
fn prefixed_instructions_are_fetched_with_their_prefix() {
    let (mut cpu, mut bus) = machine(vec![0xCB, 0x37, 0xCB, 0x7F, 0xCB, 0xC6]);
    cpu.registers.a = 0xA5;
    assert_eq!(cpu.step(&mut bus), 8);
    assert_eq!(cpu.registers.a, 0x5A);
    assert_eq!(cpu.step(&mut bus), 8);
    assert!(cpu.registers.f.zero);
    cpu.registers.set_hl(0xC000);
    assert_eq!(cpu.step(&mut bus), 16);
    assert_eq!(bus.read_byte(0xC000), 0x01);
    assert_eq!(bus.pc, 6);
}

#[test]
fn the_flags_register_is_an_operand_in_byte_form() {
    let (mut cpu, mut bus) = machine(vec![]);
    cpu.registers.a = 0xFF;
    cpu.execute(&mut bus, LD(F, A));
    assert_eq!(cpu.registers.f, flags(true, true, true, true));
    cpu.execute(&mut bus, LD(B, F));
    assert_eq!(cpu.registers.b, 0xF0);
}

#[test]
fn operand_access_by_word() {
    let (mut cpu, mut bus) = machine(vec![0x34, 0x12]);
    cpu.registers.set_af(0x12F0);
    assert_eq!(cpu.get_register_u16(&mut bus, AF), 0x12F0);
    assert_eq!(cpu.get_register_u16(&mut bus, SP), 0xFFFE);
    assert_eq!(cpu.get_register_u16(&mut bus, U16), 0x1234);
    assert_eq!(cpu.get_register_u16(&mut bus, A), 0);
    cpu.set_register_u16(&mut bus, DE, 0xBEEF);
    assert_eq!(cpu.registers.get_de(), 0xBEEF);
    assert_eq!(cpu.get_register_u8(&mut bus, E), 0xEF);
    assert!(cpu.get_cond_met(FA));
    assert!(cpu.get_cond_met(FZ));
    assert!(!cpu.get_cond_met(FNC));
    assert_eq!(CPU::add_i8(0x0000, 0xFF), 0xFFFF);
    assert_eq!(CPU::add_i8(0x0100, 0x7F), 0x017F);
    assert_eq!(CPU::add_i8(0x0100, 0x80), 0x0080);
}

#[test]
fn unprefixed_timing_table() {
    // T-cycles on a machine whose flags are all clear, so that the NZ and
    // NC conditions hold and the Z and C conditions do not.
    let table: [u16; 256] = [
        4, 12, 8, 8, 4, 4, 8, 4, 20, 8, 8, 8, 4, 4, 8, 4,
        4, 12, 8, 8, 4, 4, 8, 4, 12, 8, 8, 8, 4, 4, 8, 4,
        12, 12, 8, 8, 4, 4, 8, 4, 8, 8, 8, 8, 4, 4, 8, 4,
        12, 12, 8, 8, 12, 12, 12, 4, 8, 8, 8, 8, 4, 4, 8, 4,
        4, 4, 4, 4, 4, 4, 8, 4, 4, 4, 4, 4, 4, 4, 8, 4,
        4, 4, 4, 4, 4, 4, 8, 4, 4, 4, 4, 4, 4, 4, 8, 4,
        4, 4, 4, 4, 4, 4, 8, 4, 4, 4, 4, 4, 4, 4, 8, 4,
        8, 8, 8, 8, 8, 8, 4, 8, 4, 4, 4, 4, 4, 4, 8, 4,
        4, 4, 4, 4, 4, 4, 8, 4, 4, 4, 4, 4, 4, 4, 8, 4,
        4, 4, 4, 4, 4, 4, 8, 4, 4, 4, 4, 4, 4, 4, 8, 4,
        4, 4, 4, 4, 4, 4, 8, 4, 4, 4, 4, 4, 4, 4, 8, 4,
        4, 4, 4, 4, 4, 4, 8, 4, 4, 4, 4, 4, 4, 4, 8, 4,
        20, 12, 16, 16, 24, 16, 8, 16, 8, 16, 12, 4, 12, 24, 8, 16,
        20, 12, 16, 4, 24, 16, 8, 16, 8, 16, 12, 4, 12, 4, 8, 16,
        12, 12, 8, 4, 4, 16, 8, 16, 16, 4, 16, 4, 4, 4, 8, 16,
        12, 12, 8, 4, 4, 16, 8, 16, 12, 8, 16, 4, 4, 4, 8, 16,
    ];
    for opcode in 0..=255u8 {
        if opcode == 0xCB {
            continue;
        }
        let (mut cpu, mut bus) = machine(vec![opcode, 0x00, 0xC0]);
        assert_eq!(cpu.step(&mut bus), table[opcode as usize], "opcode {:#04x}", opcode);
    }
}

#[test]
fn prefixed_timing_table() {
    for opcode in 0..=255u8 {
        let (mut cpu, mut bus) = machine(vec![0xCB, opcode]);
        cpu.registers.set_hl(0xC000);
        let expected = if opcode & 7 != 6 {
            8
        } else if (0x40..0x80).contains(&opcode) {
            12
        } else {
            16
        };
        assert_eq!(cpu.step(&mut bus), expected, "opcode cb {:#04x}", opcode);
        assert_eq!(bus.pc, 2);
    }
}

#[test]
fn every_opcode_executes() {
    for prefixed in [false, true] {
        for opcode in 0..=255u8 {
            let (mut cpu, mut bus) = machine(vec![]);
            let instruction = AllInstructions::decode(opcode, prefixed).unwrap();
            let cycles = cpu.execute(&mut bus, instruction);
            assert!((1..=6).contains(&cycles));
        }
    }
}

#[test]
fn vblank_is_dispatched_to_its_handler() {
    let (mut cpu, mut bus) = machine(vec![]);
    bus.ime = true;
    bus.inf = 0x01;
    bus.write_byte(0xFFFF, 0x01);
    bus.pc = 0x1234;
    bus.sp = 0xD000;
    assert_eq!(cpu.check_for_interrupts(&mut bus), 20);
    assert!(!bus.ime);
    assert_eq!(bus.inf & 0x01, 0);
    assert_eq!(bus.pc, 0x0040);
    assert_eq!(bus.sp, 0xCFFE);
    assert_eq!(bus.read_byte(0xCFFF), 0x12);
    assert_eq!(bus.read_byte(0xCFFE), 0x34);
}

#[test]
fn interrupts_are_dispatched_in_priority_order() {
    let handlers = [(0x01u8, 0x40u16), (0x02, 0x48), (0x04, 0x50), (0x08, 0x58), (0x10, 0x60)];
    let (mut cpu, mut bus) = machine(vec![]);
    bus.inf = 0x1F;
    bus.write_byte(0xFFFF, 0x1F);
    let mut remaining = 0x1Fu8;
    for (mask, handler) in handlers {
        bus.ime = true;
        assert_eq!(cpu.check_for_interrupts(&mut bus), 20);
        remaining &= !mask;
        assert_eq!(bus.inf, remaining);
        assert_eq!(bus.pc, handler);
    }
    bus.ime = true;
    assert_eq!(cpu.check_for_interrupts(&mut bus), 0);
    assert!(bus.ime);
}

#[test]
fn a_request_that_is_not_enabled_is_not_dispatched() {
    let (mut cpu, mut bus) = machine(vec![]);
    bus.ime = true;
    bus.inf = 0x04;
    bus.write_byte(0xFFFF, 0x1B);
    bus.pc = 0x0200;
    cpu.halted = true;
    assert_eq!(cpu.check_for_interrupts(&mut bus), 0);
    assert!(bus.ime);
    assert!(cpu.halted);
    assert_eq!(bus.inf, 0x04);
    assert_eq!(bus.pc, 0x0200);
    assert_eq!(bus.sp, 0xFFFE);
}

#[test]
fn a_pending_interrupt_wakes_a_halted_processor_even_with_ime_clear() {
    let (mut cpu, mut bus) = machine(vec![]);
    cpu.halted = true;
    bus.ime = false;
    bus.inf = 0x10;
    bus.write_byte(0xFFFF, 0x10);
    bus.pc = 0x0200;
    assert_eq!(cpu.check_for_interrupts(&mut bus), 0);
    assert!(!cpu.halted);
    assert_eq!(bus.inf, 0x10);
    assert_eq!(bus.pc, 0x0200);
}

#[test]
fn dispatch_wakes_a_halted_processor() {
    let (mut cpu, mut bus) = machine(vec![]);
    cpu.halted = true;
    bus.ime = true;
    bus.inf = 0x04;
    bus.write_byte(0xFFFF, 0x04);
    assert_eq!(cpu.check_for_interrupts(&mut bus), 20);
    assert!(!cpu.halted);
    assert_eq!(bus.pc, 0x0050);
}
