//! The execution of instructions: one method for every kind of
//! instruction, each proved to do what `semantics` says, and the dispatcher
//! over them.

use vstd::prelude::*;
use crate::alu::{
    add16, add8, add_bytes, add_words, and8, clear_bit, cpl, daa, dec8, dec_byte, has_bit, inc8,
    inc_byte, or8, put_bit, rl, rlc, rr, rrc, sla, sra, srl, sub8, sub_bytes, swap, xor8,
    ByteResult,
};
use crate::cpu::CPU;
use crate::instructions::{AllInstructions, AllRegisters, FlagChecks, RstParameters};
use crate::memory::{lemma_wrap, wrap16, MemoryBus};
use crate::registers::{join, FlagsRegister};
use crate::semantics::{access_cycles, fetch_cycles};

verus! {

/// Machine cycles spent on the immediate bytes of an operand and on one
/// access to the byte it names.
fn operand_cycles(target: AllRegisters) -> (cycles: u8)
    ensures
        cycles == fetch_cycles(target) + access_cycles(target),
{
    match target {
        AllRegisters::U8 | AllRegisters::SPI8 => 1,
        AllRegisters::U16 => 2,
        AllRegisters::RAF
        | AllRegisters::RBC
        | AllRegisters::RDE
        | AllRegisters::RHL
        | AllRegisters::RFFC => 1,
        AllRegisters::RFFU8 => 2,
        AllRegisters::RU16 => 3,
        _ => 0,
    }
}

/// Whether an operand is a register pair or the stack pointer.
fn is_word_register(target: AllRegisters) -> (yes: bool)
    ensures
        yes == target.is_word_register(),
{
    match target {
        AllRegisters::AF
        | AllRegisters::BC
        | AllRegisters::DE
        | AllRegisters::HL
        | AllRegisters::SP => true,
        _ => false,
    }
}

impl CPU {
    /// Overwrites the flags with those of a result.
    fn take_flags(&mut self, flags: FlagsRegister)
        ensures
            *final(self) == old(self).with_f(flags),
    {
        self.registers.set_flags(flags.zero, flags.subtract, flags.half_carry, flags.carry);
    }

    /// Adds `value` to the accumulator, with the carry flag if `carry`
    /// asks for it, and leaves the flags of the addition. The accumulator
    /// itself is left for the caller to write.
    pub fn add(&mut self, value: u8, carry: bool) -> (new_value: u8)
        ensures
            new_value == add8(
                old(self).registers.a,
                value,
                carry && old(self).registers.f.carry,
            ).0,
            *final(self) == old(self).with_f(
                add8(old(self).registers.a, value, carry && old(self).registers.f.carry).1,
            ),
    {
        let (new_value, flags) = add_bytes(
            self.registers.a,
            value,
            carry && self.registers.f.carry,
        );
        self.take_flags(flags);
        new_value
    }

    /// Subtracts `value` from the accumulator, with the carry flag if
    /// `carry` asks for it, and leaves the flags of the subtraction.
    pub fn sub(&mut self, value: u8, carry: bool) -> (new_value: u8)
        ensures
            new_value == sub8(
                old(self).registers.a,
                value,
                carry && old(self).registers.f.carry,
            ).0,
            *final(self) == old(self).with_f(
                sub8(old(self).registers.a, value, carry && old(self).registers.f.carry).1,
            ),
    {
        let (new_value, flags) = sub_bytes(
            self.registers.a,
            value,
            carry && self.registers.f.carry,
        );
        self.take_flags(flags);
        new_value
    }

    pub fn _and(&mut self, value: u8) -> (new_value: u8)
        ensures
            new_value == and8(old(self).registers.a, value).0,
            *final(self) == old(self).with_f(and8(old(self).registers.a, value).1),
    {
        let new_value = self.registers.a & value;
        self.registers.set_flags(new_value == 0, false, true, false);
        new_value
    }

    pub fn _or(&mut self, value: u8) -> (new_value: u8)
        ensures
            new_value == or8(old(self).registers.a, value).0,
            *final(self) == old(self).with_f(or8(old(self).registers.a, value).1),
    {
        let new_value = self.registers.a | value;
        self.registers.set_flags(new_value == 0, false, false, false);
        new_value
    }

    pub fn _xor(&mut self, value: u8) -> (new_value: u8)
        ensures
            new_value == xor8(old(self).registers.a, value).0,
            *final(self) == old(self).with_f(xor8(old(self).registers.a, value).1),
    {
        let new_value = self.registers.a ^ value;
        self.registers.set_flags(new_value == 0, false, false, false);
        new_value
    }

    /// Increments a byte and leaves the flags; the carry flag is kept.
    pub fn inc(&mut self, value: u8) -> (new_value: u8)
        ensures
            new_value == inc8(value, old(self).registers.f).0,
            *final(self) == old(self).with_f(inc8(value, old(self).registers.f).1),
    {
        let (new_value, flags) = inc_byte(value, self.registers.f);
        self.take_flags(flags);
        new_value
    }

    /// Decrements a byte and leaves the flags; the carry flag is kept.
    pub fn dec(&mut self, value: u8) -> (new_value: u8)
        ensures
            new_value == dec8(value, old(self).registers.f).0,
            *final(self) == old(self).with_f(dec8(value, old(self).registers.f).1),
    {
        let (new_value, flags) = dec_byte(value, self.registers.f);
        self.take_flags(flags);
        new_value
    }

    pub fn inc_16(value: u16) -> (new_value: u16)
        ensures
            new_value == wrap16(value + 1),
    {
        proof {
            lemma_wrap(value + 1);
        }
        value.wrapping_add(1)
    }

    pub fn dec_16(value: u16) -> (new_value: u16)
        ensures
            new_value == wrap16(value - 1),
    {
        proof {
            lemma_wrap(value - 1);
        }
        value.wrapping_sub(1)
    }

    /// Adds `value` to `HL` and leaves the flags; `HL` itself is left for
    /// the caller to write. The zero flag is kept.
    pub fn add_16(&mut self, value: u16) -> (new_value: u16)
        ensures
            new_value == add16(old(self).registers.spec_hl(), value, old(self).registers.f).0,
            *final(self) == old(self).with_f(
                add16(old(self).registers.spec_hl(), value, old(self).registers.f).1,
            ),
    {
        let (new_value, flags) = add_words(self.registers.get_hl(), value, self.registers.f);
        self.take_flags(flags);
        new_value
    }

    pub fn inchl(&mut self)
        ensures
            *final(self) == old(self).with_registers(
                old(self).registers.with_hl(wrap16(old(self).registers.spec_hl() + 1)),
            ),
    {
        let value = Self::inc_16(self.registers.get_hl());
        self.registers.set_hl(value);
    }

    pub fn dechl(&mut self)
        ensures
            *final(self) == old(self).with_registers(
                old(self).registers.with_hl(wrap16(old(self).registers.spec_hl() - 1)),
            ),
    {
        let value = Self::dec_16(self.registers.get_hl());
        self.registers.set_hl(value);
    }

    /// Performs an 8-bit load.
    pub fn handle_load(&mut self, bus: &mut MemoryBus, to: AllRegisters, from: AllRegisters)
        ensures
            (*final(self), final(bus)@) == old(self).spec_load(old(bus)@, to, from),
    {
        if to == AllRegisters::RU16 {
            self.handle_relative_load(bus, from);
        } else {
            let val = self.get_register_u8(bus, from);
            self.set_register_u8(bus, to, val);
        }
    }

    /// Stores a byte at the address that follows in the instruction stream.
    pub fn handle_relative_load(&mut self, bus: &mut MemoryBus, from: AllRegisters)
        ensures
            (*final(self), final(bus)@) == old(self).spec_load(
                old(bus)@,
                AllRegisters::RU16,
                from,
            ),
    {
        let lsb = bus.read_increment();
        let msb = bus.read_increment();
        let loc = join(msb, lsb);
        let val = self.get_register_u8(bus, from);
        bus.write_byte(loc, val);
    }

    /// Leaves the flags of a rotate or shift and writes its result back to
    /// the operand.
    fn write_shifted(&mut self, bus: &mut MemoryBus, target: AllRegisters, result: ByteResult)
        ensures
            (*final(self), final(bus)@) == old(self).with_f(result.1).spec_set8(
                old(bus)@,
                target,
                result.0,
            ),
    {
        self.take_flags(result.1);
        self.set_register_u8(bus, target, result.0);
    }

    /// Puts a result in the accumulator and leaves its flags.
    fn take_result(&mut self, result: ByteResult)
        ensures
            *final(self) == old(self).with_a_f(result),
    {
        self.registers.a = result.0;
        self.take_flags(result.1);
    }

    /// An instruction that touches neither registers nor memory.
    fn execute_control(&mut self, bus: &mut MemoryBus, instruction: AllInstructions) -> (cycles:
        u8)
        requires
            instruction.is_control(),
        ensures
            (*final(self), final(bus)@, cycles) == old(self).spec_execute(old(bus)@, instruction),
    {
        proof {
            reveal(CPU::spec_execute);
        }
        match instruction {
            AllInstructions::HALT => {
                self.halted = true;
            },
            AllInstructions::DI => {
                bus.ime = false;
            },
            AllInstructions::EI => {
                bus.ime = true;
            },
            _ => {},
        }
        1
    }

    /// An operation on the accumulator and the flags alone.
    fn execute_accumulator(&mut self, bus: &mut MemoryBus, instruction: AllInstructions) -> (cycles:
        u8)
        requires
            instruction.is_accumulator(),
        ensures
            (*final(self), final(bus)@, cycles) == old(self).spec_execute(old(bus)@, instruction),
    {
        proof {
            reveal(CPU::spec_execute);
        }
        let a = self.registers.a;
        let f = self.registers.f;
        match instruction {
            AllInstructions::RLCA => {
                let result = rlc(a);
                self.registers.a = result.0;
                self.registers.set_flags(false, false, false, result.1.carry);
            },
            AllInstructions::RLA => {
                let result = rl(a, f.carry);
                self.registers.a = result.0;
                self.registers.set_flags(false, false, false, result.1.carry);
            },
            AllInstructions::RRCA => {
                let result = rrc(a);
                self.registers.a = result.0;
                self.registers.set_flags(false, false, false, result.1.carry);
            },
            AllInstructions::RRA => {
                let result = rr(a, f.carry);
                self.registers.a = result.0;
                self.registers.set_flags(false, false, false, result.1.carry);
            },
            AllInstructions::DAA => {
                self.take_result(daa(a, f));
            },
            AllInstructions::CPL => {
                self.take_result(cpl(a, f));
            },
            AllInstructions::SCF => {
                self.registers.set_flags(f.zero, false, false, true);
            },
            _ => {
                self.registers.set_flags(f.zero, false, false, !f.carry);
            },
        }
        1
    }

    /// Adds a byte operand to the accumulator.
    fn run_add(&mut self, bus: &mut MemoryBus, target: AllRegisters) -> (cycles: u8)
        ensures
            (*final(self), final(bus)@, cycles) == old(self).spec_execute(
                old(bus)@,
                AllInstructions::ADD(target),
            ),
    {
        proof {
            reveal(CPU::spec_execute);
        }
        let value = self.get_register_u8(bus, target);
        let result = self.add(value, false);
        self.registers.a = result;
        1 + operand_cycles(target)
    }

    /// Adds a byte operand and the carry flag to the accumulator.
    fn run_adc(&mut self, bus: &mut MemoryBus, target: AllRegisters) -> (cycles: u8)
        ensures
            (*final(self), final(bus)@, cycles) == old(self).spec_execute(
                old(bus)@,
                AllInstructions::ADC(target),
            ),
    {
        proof {
            reveal(CPU::spec_execute);
        }
        let value = self.get_register_u8(bus, target);
        let result = self.add(value, true);
        self.registers.a = result;
        1 + operand_cycles(target)
    }

    /// Subtracts a byte operand from the accumulator.
    fn run_sub(&mut self, bus: &mut MemoryBus, target: AllRegisters) -> (cycles: u8)
        ensures
            (*final(self), final(bus)@, cycles) == old(self).spec_execute(
                old(bus)@,
                AllInstructions::SUB(target),
            ),
    {
        proof {
            reveal(CPU::spec_execute);
        }
        let value = self.get_register_u8(bus, target);
        let result = self.sub(value, false);
        self.registers.a = result;
        1 + operand_cycles(target)
    }

    /// Subtracts a byte operand and the carry flag from the accumulator.
    fn run_sbc(&mut self, bus: &mut MemoryBus, target: AllRegisters) -> (cycles: u8)
        ensures
            (*final(self), final(bus)@, cycles) == old(self).spec_execute(
                old(bus)@,
                AllInstructions::SBC(target),
            ),
    {
        proof {
            reveal(CPU::spec_execute);
        }
        let value = self.get_register_u8(bus, target);
        let result = self.sub(value, true);
        self.registers.a = result;
        1 + operand_cycles(target)
    }

    /// Ands a byte operand into the accumulator.
    fn run_and(&mut self, bus: &mut MemoryBus, target: AllRegisters) -> (cycles: u8)
        ensures
            (*final(self), final(bus)@, cycles) == old(self).spec_execute(
                old(bus)@,
                AllInstructions::AND(target),
            ),
    {
        proof {
            reveal(CPU::spec_execute);
        }
        let value = self.get_register_u8(bus, target);
        let result = self._and(value);
        self.registers.a = result;
        1 + operand_cycles(target)
    }

    /// Ors a byte operand into the accumulator.
    fn run_or(&mut self, bus: &mut MemoryBus, target: AllRegisters) -> (cycles: u8)
        ensures
            (*final(self), final(bus)@, cycles) == old(self).spec_execute(
                old(bus)@,
                AllInstructions::OR(target),
            ),
    {
        proof {
            reveal(CPU::spec_execute);
        }
        let value = self.get_register_u8(bus, target);
        let result = self._or(value);
        self.registers.a = result;
        1 + operand_cycles(target)
    }

    /// Exclusive-ors a byte operand into the accumulator.
    fn run_xor(&mut self, bus: &mut MemoryBus, target: AllRegisters) -> (cycles: u8)
        ensures
            (*final(self), final(bus)@, cycles) == old(self).spec_execute(
                old(bus)@,
                AllInstructions::XOR(target),
            ),
    {
        proof {
            reveal(CPU::spec_execute);
        }
        let value = self.get_register_u8(bus, target);
        let result = self._xor(value);
        self.registers.a = result;
        1 + operand_cycles(target)
    }

    /// Compares a byte operand with the accumulator: the flags of a
    /// subtraction, the accumulator unchanged.
    fn run_cp(&mut self, bus: &mut MemoryBus, target: AllRegisters) -> (cycles: u8)
        ensures
            (*final(self), final(bus)@, cycles) == old(self).spec_execute(
                old(bus)@,
                AllInstructions::CP(target),
            ),
    {
        proof {
            reveal(CPU::spec_execute);
        }
        let value = self.get_register_u8(bus, target);
        self.sub(value, false);
        1 + operand_cycles(target)
    }

    /// Increments a byte operand.
    fn run_inc(&mut self, bus: &mut MemoryBus, target: AllRegisters) -> (cycles: u8)
        ensures
            (*final(self), final(bus)@, cycles) == old(self).spec_execute(
                old(bus)@,
                AllInstructions::INC(target),
            ),
    {
        proof {
            reveal(CPU::spec_execute);
        }
        let value = self.get_register_u8(bus, target);
        let result = self.inc(value);
        self.set_register_u8(bus, target, result);
        1 + 2 * operand_cycles(target)
    }

    /// Decrements a byte operand.
    fn run_dec(&mut self, bus: &mut MemoryBus, target: AllRegisters) -> (cycles: u8)
        ensures
            (*final(self), final(bus)@, cycles) == old(self).spec_execute(
                old(bus)@,
                AllInstructions::DEC(target),
            ),
    {
        proof {
            reveal(CPU::spec_execute);
        }
        let value = self.get_register_u8(bus, target);
        let result = self.dec(value);
        self.set_register_u8(bus, target, result);
        1 + 2 * operand_cycles(target)
    }

    /// Loads a byte.
    fn run_ld(&mut self, bus: &mut MemoryBus, to: AllRegisters, from: AllRegisters) -> (cycles: u8)
        ensures
            (*final(self), final(bus)@, cycles) == old(self).spec_execute(
                old(bus)@,
                AllInstructions::LD(to, from),
            ),
    {
        proof {
            reveal(CPU::spec_execute);
        }
        self.handle_load(bus, to, from);
        1 + operand_cycles(to) + operand_cycles(from)
    }

    /// Loads a byte, then increments `HL`.
    fn run_ldi(&mut self, bus: &mut MemoryBus, to: AllRegisters, from: AllRegisters) -> (cycles: u8)
        ensures
            (*final(self), final(bus)@, cycles) == old(self).spec_execute(
                old(bus)@,
                AllInstructions::LDI(to, from),
            ),
    {
        proof {
            reveal(CPU::spec_execute);
        }
        self.handle_load(bus, to, from);
        self.inchl();
        1 + operand_cycles(to) + operand_cycles(from)
    }

    /// Loads a byte, then decrements `HL`.
    fn run_ldd(&mut self, bus: &mut MemoryBus, to: AllRegisters, from: AllRegisters) -> (cycles: u8)
        ensures
            (*final(self), final(bus)@, cycles) == old(self).spec_execute(
                old(bus)@,
                AllInstructions::LDD(to, from),
            ),
    {
        proof {
            reveal(CPU::spec_execute);
        }
        self.handle_load(bus, to, from);
        self.dechl();
        1 + operand_cycles(to) + operand_cycles(from)
    }

    /// Loads a word.
    fn run_ld16(&mut self, bus: &mut MemoryBus, to: AllRegisters, from: AllRegisters) -> (cycles: u8)
        ensures
            (*final(self), final(bus)@, cycles) == old(self).spec_execute(
                old(bus)@,
                AllInstructions::LD16(to, from),
            ),
    {
        proof {
            reveal(CPU::spec_execute);
        }
        let value = self.get_register_u16(bus, from);
        self.set_register_u16(bus, to, value);
        let store: u8 = if to == AllRegisters::RU16 {
            4
        } else {
            0
        };
        let fetch: u8 = match from {
            AllRegisters::U16 | AllRegisters::SPI8 => 2,
            _ => 0,
        };
        let internal: u8 = if is_word_register(from) && is_word_register(to) {
            1
        } else {
            0
        };
        1 + store + fetch + internal
    }

    /// Loads `SP` plus a signed offset into a register pair.
    fn run_ldsp(&mut self, bus: &mut MemoryBus, to: AllRegisters) -> (cycles: u8)
        ensures
            (*final(self), final(bus)@, cycles) == old(self).spec_execute(
                old(bus)@,
                AllInstructions::LDSP(to),
            ),
    {
        proof {
            reveal(CPU::spec_execute);
        }
        let value = self.get_register_u16(bus, AllRegisters::SPI8);
        self.set_register_u16(bus, to, value);
        3
    }

    /// Pushes a word.
    fn run_push(&mut self, bus: &mut MemoryBus, target: AllRegisters) -> (cycles: u8)
        ensures
            (*final(self), final(bus)@, cycles) == old(self).spec_execute(
                old(bus)@,
                AllInstructions::PUSH(target),
            ),
    {
        proof {
            reveal(CPU::spec_execute);
        }
        let value = self.get_register_u16(bus, target);
        bus.push(value);
        4
    }

    /// Pops a word.
    fn run_pop(&mut self, bus: &mut MemoryBus, target: AllRegisters) -> (cycles: u8)
        ensures
            (*final(self), final(bus)@, cycles) == old(self).spec_execute(
                old(bus)@,
                AllInstructions::POP(target),
            ),
    {
        proof {
            reveal(CPU::spec_execute);
        }
        let value = bus.pop();
        self.set_register_u16(bus, target, value);
        3
    }

    /// Adds a word operand to `HL`.
    fn run_add16(&mut self, bus: &mut MemoryBus, target: AllRegisters) -> (cycles: u8)
        ensures
            (*final(self), final(bus)@, cycles) == old(self).spec_execute(
                old(bus)@,
                AllInstructions::ADD16(target),
            ),
    {
        proof {
            reveal(CPU::spec_execute);
        }
        let value = self.get_register_u16(bus, target);
        let new_value = self.add_16(value);
        self.registers.set_hl(new_value);
        2
    }

    /// Increments a word operand.
    fn run_inc16(&mut self, bus: &mut MemoryBus, target: AllRegisters) -> (cycles: u8)
        ensures
            (*final(self), final(bus)@, cycles) == old(self).spec_execute(
                old(bus)@,
                AllInstructions::INC16(target),
            ),
    {
        proof {
            reveal(CPU::spec_execute);
        }
        let value = self.get_register_u16(bus, target);
        self.set_register_u16(bus, target, Self::inc_16(value));
        2
    }

    /// Decrements a word operand.
    fn run_dec16(&mut self, bus: &mut MemoryBus, target: AllRegisters) -> (cycles: u8)
        ensures
            (*final(self), final(bus)@, cycles) == old(self).spec_execute(
                old(bus)@,
                AllInstructions::DEC16(target),
            ),
    {
        proof {
            reveal(CPU::spec_execute);
        }
        let value = self.get_register_u16(bus, target);
        self.set_register_u16(bus, target, Self::dec_16(value));
        2
    }

    /// Adds a signed offset to `SP`.
    fn run_addsp(&mut self, bus: &mut MemoryBus) -> (cycles: u8)
        ensures
            (*final(self), final(bus)@, cycles) == old(self).spec_execute(
                old(bus)@,
                AllInstructions::ADDSP,
            ),
    {
        proof {
            reveal(CPU::spec_execute);
        }
        let sp = bus.sp;
        let offset = bus.read_increment();
        let new_value = self.add_i8_flags(sp, offset);
        bus.sp = new_value;
        4
    }

    /// Jumps if the condition holds.
    fn run_jp(&mut self, bus: &mut MemoryBus, cond: FlagChecks, to: AllRegisters) -> (cycles: u8)
        ensures
            (*final(self), final(bus)@, cycles) == old(self).spec_execute(
                old(bus)@,
                AllInstructions::JP(cond, to),
            ),
    {
        proof {
            reveal(CPU::spec_execute);
        }
        let go = self.get_cond_met(cond);
        let addr = self.get_register_u16(bus, to);
        bus.jump(addr, go);
        if is_word_register(to) {
            1
        } else if go {
            4
        } else {
            3
        }
    }

    /// Jumps relative if the condition holds.
    fn run_jr(&mut self, bus: &mut MemoryBus, cond: FlagChecks) -> (cycles: u8)
        ensures
            (*final(self), final(bus)@, cycles) == old(self).spec_execute(
                old(bus)@,
                AllInstructions::JR(cond),
            ),
    {
        proof {
            reveal(CPU::spec_execute);
        }
        let go = self.get_cond_met(cond);
        let offset = bus.read_increment();
        let addr = Self::add_i8(bus.pc, offset);
        bus.jump(addr, go);
        if go {
            3
        } else {
            2
        }
    }

    /// Calls if the condition holds.
    fn run_call(&mut self, bus: &mut MemoryBus, cond: FlagChecks, to: AllRegisters) -> (cycles: u8)
        ensures
            (*final(self), final(bus)@, cycles) == old(self).spec_execute(
                old(bus)@,
                AllInstructions::CALL(cond, to),
            ),
    {
        proof {
            reveal(CPU::spec_execute);
        }
        let go = self.get_cond_met(cond);
        let addr = self.get_register_u16(bus, to);
        if go {
            let pc = bus.pc;
            bus.push(pc);
            bus.jump(addr, true);
            6
        } else {
            3
        }
    }

    /// Returns if the condition holds.
    fn run_ret(&mut self, bus: &mut MemoryBus, cond: FlagChecks) -> (cycles: u8)
        ensures
            (*final(self), final(bus)@, cycles) == old(self).spec_execute(
                old(bus)@,
                AllInstructions::RET(cond),
            ),
    {
        proof {
            reveal(CPU::spec_execute);
        }
        let go = self.get_cond_met(cond);
        if go {
            let loc = bus.pop();
            bus.jump(loc, true);
        }
        if cond == FlagChecks::FA {
            4
        } else if go {
            5
        } else {
            2
        }
    }

    /// Returns and enables interrupts.
    fn run_reti(&mut self, bus: &mut MemoryBus, cond: FlagChecks) -> (cycles: u8)
        ensures
            (*final(self), final(bus)@, cycles) == old(self).spec_execute(
                old(bus)@,
                AllInstructions::RETI(cond),
            ),
    {
        proof {
            reveal(CPU::spec_execute);
        }
        if self.get_cond_met(cond) {
            let loc = bus.pop();
            bus.pc = loc;
            bus.ime = true;
        }
        4
    }

    /// Restarts at a fixed address.
    fn run_rst(&mut self, bus: &mut MemoryBus, param: RstParameters) -> (cycles: u8)
        ensures
            (*final(self), final(bus)@, cycles) == old(self).spec_execute(
                old(bus)@,
                AllInstructions::RST(param),
            ),
    {
        proof {
            reveal(CPU::spec_execute);
        }
        let pc = bus.pc;
        bus.push(pc);
        bus.jump(param.target(), true);
        4
    }

    /// Tests one bit of a byte operand.
    fn run_bit(&mut self, bus: &mut MemoryBus, pos: u8, target: AllRegisters) -> (cycles: u8)
        ensures
            (*final(self), final(bus)@, cycles) == old(self).spec_execute(
                old(bus)@,
                AllInstructions::BIT(pos, target),
            ),
    {
        proof {
            reveal(CPU::spec_execute);
        }
        let value = self.get_register_u8(bus, target);
        let carry = self.registers.f.carry;
        self.registers.set_flags(!has_bit(value, pos), false, true, carry);
        2 + operand_cycles(target)
    }

    /// Sets one bit of a byte operand.
    fn run_set(&mut self, bus: &mut MemoryBus, pos: u8, target: AllRegisters) -> (cycles: u8)
        ensures
            (*final(self), final(bus)@, cycles) == old(self).spec_execute(
                old(bus)@,
                AllInstructions::SET(pos, target),
            ),
    {
        proof {
            reveal(CPU::spec_execute);
        }
        let value = self.get_register_u8(bus, target);
        self.set_register_u8(bus, target, put_bit(value, pos));
        2 + 2 * operand_cycles(target)
    }

    /// Clears one bit of a byte operand.
    fn run_res(&mut self, bus: &mut MemoryBus, pos: u8, target: AllRegisters) -> (cycles: u8)
        ensures
            (*final(self), final(bus)@, cycles) == old(self).spec_execute(
                old(bus)@,
                AllInstructions::RES(pos, target),
            ),
    {
        proof {
            reveal(CPU::spec_execute);
        }
        let value = self.get_register_u8(bus, target);
        self.set_register_u8(bus, target, clear_bit(value, pos));
        2 + 2 * operand_cycles(target)
    }

    /// Rotates a byte operand left.
    fn run_rlc(&mut self, bus: &mut MemoryBus, target: AllRegisters) -> (cycles: u8)
        ensures
            (*final(self), final(bus)@, cycles) == old(self).spec_execute(
                old(bus)@,
                AllInstructions::RLC(target),
            ),
    {
        proof {
            reveal(CPU::spec_execute);
        }
        let value = self.get_register_u8(bus, target);
        let result = rlc(value);
        self.write_shifted(bus, target, result);
        2 + 2 * operand_cycles(target)
    }

    /// Rotates a byte operand left through the carry.
    fn run_rl(&mut self, bus: &mut MemoryBus, target: AllRegisters) -> (cycles: u8)
        ensures
            (*final(self), final(bus)@, cycles) == old(self).spec_execute(
                old(bus)@,
                AllInstructions::RL(target),
            ),
    {
        proof {
            reveal(CPU::spec_execute);
        }
        let value = self.get_register_u8(bus, target);
        let result = rl(value, self.registers.f.carry);
        self.write_shifted(bus, target, result);
        2 + 2 * operand_cycles(target)
    }

    /// Rotates a byte operand right.
    fn run_rrc(&mut self, bus: &mut MemoryBus, target: AllRegisters) -> (cycles: u8)
        ensures
            (*final(self), final(bus)@, cycles) == old(self).spec_execute(
                old(bus)@,
                AllInstructions::RRC(target),
            ),
    {
        proof {
            reveal(CPU::spec_execute);
        }
        let value = self.get_register_u8(bus, target);
        let result = rrc(value);
        self.write_shifted(bus, target, result);
        2 + 2 * operand_cycles(target)
    }

    /// Rotates a byte operand right through the carry.
    fn run_rr(&mut self, bus: &mut MemoryBus, target: AllRegisters) -> (cycles: u8)
        ensures
            (*final(self), final(bus)@, cycles) == old(self).spec_execute(
                old(bus)@,
                AllInstructions::RR(target),
            ),
    {
        proof {
            reveal(CPU::spec_execute);
        }
        let value = self.get_register_u8(bus, target);
        let result = rr(value, self.registers.f.carry);
        self.write_shifted(bus, target, result);
        2 + 2 * operand_cycles(target)
    }

    /// Shifts a byte operand left.
    fn run_sla(&mut self, bus: &mut MemoryBus, target: AllRegisters) -> (cycles: u8)
        ensures
            (*final(self), final(bus)@, cycles) == old(self).spec_execute(
                old(bus)@,
                AllInstructions::SLA(target),
            ),
    {
        proof {
            reveal(CPU::spec_execute);
        }
        let value = self.get_register_u8(bus, target);
        let result = sla(value);
        self.write_shifted(bus, target, result);
        2 + 2 * operand_cycles(target)
    }

    /// Shifts a byte operand right, keeping its sign bit.
    fn run_sra(&mut self, bus: &mut MemoryBus, target: AllRegisters) -> (cycles: u8)
        ensures
            (*final(self), final(bus)@, cycles) == old(self).spec_execute(
                old(bus)@,
                AllInstructions::SRA(target),
            ),
    {
        proof {
            reveal(CPU::spec_execute);
        }
        let value = self.get_register_u8(bus, target);
        let result = sra(value);
        self.write_shifted(bus, target, result);
        2 + 2 * operand_cycles(target)
    }

    /// Exchanges the nibbles of a byte operand.
    fn run_swap(&mut self, bus: &mut MemoryBus, target: AllRegisters) -> (cycles: u8)
        ensures
            (*final(self), final(bus)@, cycles) == old(self).spec_execute(
                old(bus)@,
                AllInstructions::SWAP(target),
            ),
    {
        proof {
            reveal(CPU::spec_execute);
        }
        let value = self.get_register_u8(bus, target);
        let result = swap(value);
        self.write_shifted(bus, target, result);
        2 + 2 * operand_cycles(target)
    }

    /// Shifts a byte operand right.
    fn run_srl(&mut self, bus: &mut MemoryBus, target: AllRegisters) -> (cycles: u8)
        ensures
            (*final(self), final(bus)@, cycles) == old(self).spec_execute(
                old(bus)@,
                AllInstructions::SRL(target),
            ),
    {
        proof {
            reveal(CPU::spec_execute);
        }
        let value = self.get_register_u8(bus, target);
        let result = srl(value);
        self.write_shifted(bus, target, result);
        2 + 2 * operand_cycles(target)
    }

    /// Executes one instruction and returns its cost in machine cycles.
    ///
    /// Every instruction is executed, whatever its operands: one whose
    /// operands do not fit its operation, which the decoder never yields,
    /// reads and writes as the operand access functions say.
    pub fn execute(&mut self, bus: &mut MemoryBus, instruction: AllInstructions) -> (cycles: u8)
        ensures
            (*final(self), final(bus)@, cycles) == old(self).spec_execute(old(bus)@, instruction),
    {
        match instruction {
            AllInstructions::NOP
            | AllInstructions::EMPTY
            | AllInstructions::HALT
            | AllInstructions::STOP
            | AllInstructions::DI
            | AllInstructions::EI => self.execute_control(bus, instruction),
            AllInstructions::RLCA
            | AllInstructions::RLA
            | AllInstructions::RRCA
            | AllInstructions::RRA
            | AllInstructions::DAA
            | AllInstructions::CPL
            | AllInstructions::SCF
            | AllInstructions::CCF => self.execute_accumulator(bus, instruction),
            AllInstructions::ADD(target) => self.run_add(bus, target),
            AllInstructions::ADC(target) => self.run_adc(bus, target),
            AllInstructions::SUB(target) => self.run_sub(bus, target),
            AllInstructions::SBC(target) => self.run_sbc(bus, target),
            AllInstructions::AND(target) => self.run_and(bus, target),
            AllInstructions::OR(target) => self.run_or(bus, target),
            AllInstructions::XOR(target) => self.run_xor(bus, target),
            AllInstructions::CP(target) => self.run_cp(bus, target),
            AllInstructions::INC(target) => self.run_inc(bus, target),
            AllInstructions::DEC(target) => self.run_dec(bus, target),
            AllInstructions::LD(to, from) => self.run_ld(bus, to, from),
            AllInstructions::LDI(to, from) => self.run_ldi(bus, to, from),
            AllInstructions::LDD(to, from) => self.run_ldd(bus, to, from),
            AllInstructions::LD16(to, from) => self.run_ld16(bus, to, from),
            AllInstructions::ADD16(target) => self.run_add16(bus, target),
            AllInstructions::INC16(target) => self.run_inc16(bus, target),
            AllInstructions::DEC16(target) => self.run_dec16(bus, target),
            AllInstructions::ADDSP => self.run_addsp(bus),
            AllInstructions::LDSP(to) => self.run_ldsp(bus, to),
            AllInstructions::JP(cond, to) => self.run_jp(bus, cond, to),
            AllInstructions::JR(cond) => self.run_jr(bus, cond),
            AllInstructions::CALL(cond, to) => self.run_call(bus, cond, to),
            AllInstructions::RET(cond) => self.run_ret(bus, cond),
            AllInstructions::RETI(cond) => self.run_reti(bus, cond),
            AllInstructions::RST(param) => self.run_rst(bus, param),
            AllInstructions::PUSH(target) => self.run_push(bus, target),
            AllInstructions::POP(target) => self.run_pop(bus, target),
            AllInstructions::BIT(pos, target) => self.run_bit(bus, pos, target),
            AllInstructions::RES(pos, target) => self.run_res(bus, pos, target),
            AllInstructions::SET(pos, target) => self.run_set(bus, pos, target),
            AllInstructions::RLC(target) => self.run_rlc(bus, target),
            AllInstructions::RL(target) => self.run_rl(bus, target),
            AllInstructions::RRC(target) => self.run_rrc(bus, target),
            AllInstructions::RR(target) => self.run_rr(bus, target),
            AllInstructions::SLA(target) => self.run_sla(bus, target),
            AllInstructions::SRA(target) => self.run_sra(bus, target),
            AllInstructions::SWAP(target) => self.run_swap(bus, target),
            AllInstructions::SRL(target) => self.run_srl(bus, target),
        }
    }
}

} // verus!
