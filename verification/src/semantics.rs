//! What every instruction means: the processor and the bus it leaves
//! behind, and the machine cycles it takes.
//!
//! Flags follow the rules of the arithmetic in `alu`. A cost is one cycle
//! for the opcode, two for a prefixed one, one more for every immediate
//! byte and every access to memory, plus the internal cycles of 16-bit
//! arithmetic, stack operations and taken branches.

use vstd::prelude::*;
use crate::alu::{
    accumulator_form, add16, add8, add_offset, and8, cpl8, daa8, dec8, inc8, or8, reset_bit, rl8,
    rlc8, rr8, rrc8, set_bit, signed_offset, sla8, sra8, srl8, sub8, swap8, test_bit, xor8,
    ByteResult,
};
use crate::cpu::CPU;
use crate::instructions::{
    accumulator_operation, decode_block0, decode_block3, grid_register, pair_register,
    shift_operation, stack_register, AllInstructions, AllRegisters, FlagChecks,
};
use crate::memory::{wrap16, BusState};
use crate::registers::FlagsRegister;

verus! {

/// Machine cycles spent fetching the immediate bytes of an operand.
pub open spec fn fetch_cycles(operand: AllRegisters) -> int {
    match operand {
        AllRegisters::U8 | AllRegisters::RFFU8 | AllRegisters::SPI8 => 1,
        AllRegisters::U16 | AllRegisters::RU16 => 2,
        _ => 0,
    }
}

/// Machine cycles spent on one access to the byte an operand names: one
/// for a byte in memory, none for a register or an immediate.
pub open spec fn access_cycles(operand: AllRegisters) -> int {
    if operand.is_memory() {
        1
    } else {
        0
    }
}

/// Cost of an instruction that reads one byte operand.
pub open spec fn read_cycles(operand: AllRegisters) -> int {
    1 + fetch_cycles(operand) + access_cycles(operand)
}

/// Cost of an 8-bit load.
pub open spec fn load_cycles(to: AllRegisters, from: AllRegisters) -> int {
    1 + fetch_cycles(to) + access_cycles(to) + fetch_cycles(from) + access_cycles(from)
}

/// Cost of a 16-bit load: one cycle for the opcode; four for a store to
/// memory, which fetches an address and writes two bytes; two for an
/// immediate word, or for an offset and its addition; and one internal
/// cycle for a move between registers.
pub open spec fn load16_cycles(to: AllRegisters, from: AllRegisters) -> int {
    1 + (if to == AllRegisters::RU16 {
        4int
    } else {
        0
    }) + (if from == AllRegisters::U16 || from == AllRegisters::SPI8 {
        2int
    } else {
        0
    }) + (if from.is_word_register() && to.is_word_register() {
        1int
    } else {
        0
    })
}

/// What an instruction leaves behind: the processor, the bus, and the
/// machine cycles it took.
pub type Outcome = (CPU, BusState, u8);

impl CPU {
    /// An operation on the accumulator and one byte operand. `result_of`
    /// gives the result and flags from the accumulator, the operand and the
    /// flags before; `store` tells whether the result goes to the
    /// accumulator or only the flags are kept.
    pub open spec fn spec_accumulate(
        self,
        bus: BusState,
        target: AllRegisters,
        result_of: spec_fn(u8, u8, FlagsRegister) -> ByteResult,
        store: bool,
    ) -> Outcome {
        let (value, after) = self.spec_get8(bus, target);
        let result = result_of(self.registers.a, value, self.registers.f);
        (
            if store {
                self.with_a_f(result)
            } else {
                self.with_f(result.1)
            },
            after,
            read_cycles(target) as u8,
        )
    }

    /// An operation that reads a byte operand, leaves flags and writes a
    /// result back to the same operand. The flags are set before the write,
    /// so a write to `F` has the last word.
    pub open spec fn spec_modify(
        self,
        bus: BusState,
        target: AllRegisters,
        result_of: spec_fn(u8, FlagsRegister) -> ByteResult,
        base_cycles: int,
    ) -> Outcome {
        let (value, read) = self.spec_get8(bus, target);
        let result = result_of(value, self.registers.f);
        let (cpu, written) = self.with_f(result.1).spec_set8(read, target, result.0);
        (cpu, written, (base_cycles + 2 * (fetch_cycles(target) + access_cycles(target))) as u8)
    }

    /// An operation on the accumulator alone.
    pub open spec fn spec_on_accumulator(self, bus: BusState, result: ByteResult) -> Outcome {
        (self.with_a_f(result), bus, 1)
    }

    /// An 8-bit load. A store to the address that follows in the
    /// instruction stream fetches the address before it reads the source;
    /// every other load reads the source first.
    pub open spec fn spec_load(self, bus: BusState, to: AllRegisters, from: AllRegisters) -> (
        CPU,
        BusState,
    ) {
        if to == AllRegisters::RU16 {
            let (loc, fetched) = bus.fetch16();
            let (value, read) = self.spec_get8(fetched, from);
            (self, read.write(loc, value))
        } else {
            let (value, read) = self.spec_get8(bus, from);
            self.spec_set8(read, to, value)
        }
    }

    /// An 8-bit load followed by the addition of `step` to `HL`.
    pub open spec fn spec_load_step(
        self,
        bus: BusState,
        to: AllRegisters,
        from: AllRegisters,
        step: int,
    ) -> Outcome {
        let (cpu, after) = self.spec_load(bus, to, from);
        let hl = wrap16(cpu.registers.spec_hl() + step);
        (cpu.with_registers(cpu.registers.with_hl(hl)), after, load_cycles(to, from) as u8)
    }

    /// A 16-bit increment or decrement; no flag changes.
    pub open spec fn spec_step16(self, bus: BusState, target: AllRegisters, step: int) -> Outcome {
        let (value, cpu, read) = self.spec_get16(bus, target);
        let (stepped, written) = cpu.spec_set16(read, target, wrap16(value + step));
        (stepped, written, 2)
    }

    /// A jump to the word an operand names, taken iff the condition holds.
    /// The operand is read either way. A jump through a register costs one
    /// cycle, one to an immediate address three, and one more when taken.
    pub open spec fn spec_jp(self, bus: BusState, condition: FlagChecks, to: AllRegisters) -> Outcome {
        let go = self.spec_cond_met(condition);
        let (addr, cpu, read) = self.spec_get16(bus, to);
        (
            cpu,
            read.jump(addr, go),
            if to.is_word_register() {
                1
            } else if go {
                4
            } else {
                3
            },
        )
    }

    /// A relative jump: the signed byte that follows is added to the
    /// address of the next instruction. The byte is fetched either way.
    pub open spec fn spec_jr(self, bus: BusState, condition: FlagChecks) -> Outcome {
        let go = self.spec_cond_met(condition);
        let (offset, fetched) = bus.fetch();
        (
            self,
            fetched.jump(wrap16(fetched.pc + signed_offset(offset)), go),
            if go {
                3
            } else {
                2
            },
        )
    }

    /// A call: when the condition holds, the address of the next
    /// instruction is pushed and `pc` moves to the word the operand names.
    /// The operand is read either way.
    pub open spec fn spec_call(self, bus: BusState, condition: FlagChecks, to: AllRegisters) -> Outcome {
        let go = self.spec_cond_met(condition);
        let (addr, cpu, read) = self.spec_get16(bus, to);
        if go {
            (cpu, read.push(read.pc).jump(addr, true), 6)
        } else {
            (cpu, read, 3)
        }
    }

    /// A return: when the condition holds, `pc` is popped off the stack.
    /// The unconditional return costs four cycles, a conditional one five
    /// when taken and two when not.
    pub open spec fn spec_ret(self, bus: BusState, condition: FlagChecks) -> Outcome {
        let go = self.spec_cond_met(condition);
        let (addr, popped) = bus.pop();
        (
            self,
            if go {
                popped.jump(addr, true)
            } else {
                bus
            },
            if condition == FlagChecks::FA {
                4
            } else if go {
                5
            } else {
                2
            },
        )
    }

    /// A return that also enables interrupts.
    pub open spec fn spec_reti(self, bus: BusState, condition: FlagChecks) -> Outcome {
        let (addr, popped) = bus.pop();
        (
            self,
            if self.spec_cond_met(condition) {
                BusState { pc: addr, ime: true, ..popped }
            } else {
                bus
            },
            4,
        )
    }

    /// The test of one bit of a byte operand.
    pub open spec fn spec_bit(self, bus: BusState, n: u8, target: AllRegisters) -> Outcome {
        let (value, read) = self.spec_get8(bus, target);
        (
            self.with_f(test_bit(value, n, self.registers.f)),
            read,
            (2 + fetch_cycles(target) + access_cycles(target)) as u8,
        )
    }

    /// What executing `instruction` leaves behind.
    ///
    /// Flags follow the rules of the arithmetic in `alu`. Costs are machine
    /// cycles: one for the opcode, two for a prefixed one, one more for
    /// every immediate byte and every access to memory, plus the internal
    /// cycles of 16-bit arithmetic, stack operations and taken branches.
    #[verifier::opaque]
    pub open spec fn spec_execute(self, bus: BusState, instruction: AllInstructions) -> Outcome {
        let a = self.registers.a;
        let f = self.registers.f;
        match instruction {
            AllInstructions::NOP | AllInstructions::EMPTY | AllInstructions::STOP => (self, bus, 1),
            AllInstructions::HALT => (CPU { halted: true, ..self }, bus, 1),
            AllInstructions::DI => (self, BusState { ime: false, ..bus }, 1),
            AllInstructions::EI => (self, BusState { ime: true, ..bus }, 1),
            AllInstructions::RLCA => self.spec_on_accumulator(bus, accumulator_form(rlc8(a))),
            AllInstructions::RLA => self.spec_on_accumulator(bus, accumulator_form(rl8(a, f.carry))),
            AllInstructions::RRCA => self.spec_on_accumulator(bus, accumulator_form(rrc8(a))),
            AllInstructions::RRA => self.spec_on_accumulator(bus, accumulator_form(rr8(a, f.carry))),
            AllInstructions::DAA => self.spec_on_accumulator(bus, daa8(a, f)),
            AllInstructions::CPL => self.spec_on_accumulator(bus, cpl8(a, f)),
            AllInstructions::SCF => (
                self.with_f(FlagsRegister { subtract: false, half_carry: false, carry: true, ..f }),
                bus,
                1,
            ),
            AllInstructions::CCF => (
                self.with_f(
                    FlagsRegister { subtract: false, half_carry: false, carry: !f.carry, ..f },
                ),
                bus,
                1,
            ),
            AllInstructions::ADD(t) => self.spec_accumulate(
                bus,
                t,
                |a: u8, v: u8, f: FlagsRegister| add8(a, v, false),
                true,
            ),
            AllInstructions::ADC(t) => self.spec_accumulate(
                bus,
                t,
                |a: u8, v: u8, f: FlagsRegister| add8(a, v, f.carry),
                true,
            ),
            AllInstructions::SUB(t) => self.spec_accumulate(
                bus,
                t,
                |a: u8, v: u8, f: FlagsRegister| sub8(a, v, false),
                true,
            ),
            AllInstructions::SBC(t) => self.spec_accumulate(
                bus,
                t,
                |a: u8, v: u8, f: FlagsRegister| sub8(a, v, f.carry),
                true,
            ),
            AllInstructions::AND(t) => self.spec_accumulate(
                bus,
                t,
                |a: u8, v: u8, f: FlagsRegister| and8(a, v),
                true,
            ),
            AllInstructions::OR(t) => self.spec_accumulate(
                bus,
                t,
                |a: u8, v: u8, f: FlagsRegister| or8(a, v),
                true,
            ),
            AllInstructions::XOR(t) => self.spec_accumulate(
                bus,
                t,
                |a: u8, v: u8, f: FlagsRegister| xor8(a, v),
                true,
            ),
            AllInstructions::CP(t) => self.spec_accumulate(
                bus,
                t,
                |a: u8, v: u8, f: FlagsRegister| sub8(a, v, false),
                false,
            ),
            AllInstructions::INC(t) => self.spec_modify(
                bus,
                t,
                |v: u8, f: FlagsRegister| inc8(v, f),
                1,
            ),
            AllInstructions::DEC(t) => self.spec_modify(
                bus,
                t,
                |v: u8, f: FlagsRegister| dec8(v, f),
                1,
            ),
            AllInstructions::LD(to, from) => {
                let (cpu, after) = self.spec_load(bus, to, from);
                (cpu, after, load_cycles(to, from) as u8)
            },
            AllInstructions::LDI(to, from) => self.spec_load_step(bus, to, from, 1),
            AllInstructions::LDD(to, from) => self.spec_load_step(bus, to, from, -1),
            AllInstructions::LD16(to, from) => {
                let (value, cpu, read) = self.spec_get16(bus, from);
                let (loaded, written) = cpu.spec_set16(read, to, value);
                (loaded, written, load16_cycles(to, from) as u8)
            },
            AllInstructions::ADD16(t) => {
                let (value, cpu, read) = self.spec_get16(bus, t);
                let (sum, flags) = add16(cpu.registers.spec_hl(), value, cpu.registers.f);
                (cpu.with_registers(cpu.registers.with_hl(sum)).with_f(flags), read, 2)
            },
            AllInstructions::INC16(t) => self.spec_step16(bus, t, 1),
            AllInstructions::DEC16(t) => self.spec_step16(bus, t, -1),
            AllInstructions::ADDSP => {
                let (offset, fetched) = bus.fetch();
                let (sum, flags) = add_offset(bus.sp, offset);
                (self.with_f(flags), BusState { sp: sum, ..fetched }, 4)
            },
            AllInstructions::LDSP(to) => {
                let (value, cpu, read) = self.spec_get16(bus, AllRegisters::SPI8);
                let (loaded, written) = cpu.spec_set16(read, to, value);
                (loaded, written, 3)
            },
            AllInstructions::JP(condition, to) => self.spec_jp(bus, condition, to),
            AllInstructions::JR(condition) => self.spec_jr(bus, condition),
            AllInstructions::CALL(condition, to) => self.spec_call(bus, condition, to),
            AllInstructions::RET(condition) => self.spec_ret(bus, condition),
            AllInstructions::RETI(condition) => self.spec_reti(bus, condition),
            AllInstructions::RST(param) => (
                self,
                bus.push(bus.pc).jump(param.spec_target(), true),
                4,
            ),
            AllInstructions::PUSH(t) => {
                let (value, cpu, read) = self.spec_get16(bus, t);
                (cpu, read.push(value), 4)
            },
            AllInstructions::POP(t) => {
                let (value, popped) = bus.pop();
                let (cpu, written) = self.spec_set16(popped, t, value);
                (cpu, written, 3)
            },
            AllInstructions::BIT(n, t) => self.spec_bit(bus, n, t),
            AllInstructions::RES(n, t) => self.spec_modify(
                bus,
                t,
                |v: u8, f: FlagsRegister| (reset_bit(v, n), f),
                2,
            ),
            AllInstructions::SET(n, t) => self.spec_modify(
                bus,
                t,
                |v: u8, f: FlagsRegister| (set_bit(v, n), f),
                2,
            ),
            AllInstructions::RLC(t) => self.spec_modify(
                bus,
                t,
                |v: u8, f: FlagsRegister| rlc8(v),
                2,
            ),
            AllInstructions::RL(t) => self.spec_modify(
                bus,
                t,
                |v: u8, f: FlagsRegister| rl8(v, f.carry),
                2,
            ),
            AllInstructions::RRC(t) => self.spec_modify(
                bus,
                t,
                |v: u8, f: FlagsRegister| rrc8(v),
                2,
            ),
            AllInstructions::RR(t) => self.spec_modify(
                bus,
                t,
                |v: u8, f: FlagsRegister| rr8(v, f.carry),
                2,
            ),
            AllInstructions::SLA(t) => self.spec_modify(
                bus,
                t,
                |v: u8, f: FlagsRegister| sla8(v),
                2,
            ),
            AllInstructions::SRA(t) => self.spec_modify(
                bus,
                t,
                |v: u8, f: FlagsRegister| sra8(v),
                2,
            ),
            AllInstructions::SWAP(t) => self.spec_modify(
                bus,
                t,
                |v: u8, f: FlagsRegister| swap8(v),
                2,
            ),
            AllInstructions::SRL(t) => self.spec_modify(
                bus,
                t,
                |v: u8, f: FlagsRegister| srl8(v),
                2,
            ),
        }
    }
}

impl CPU {
    /// The machine cycles that an instruction takes. The cost is fixed by
    /// the instruction and its operands and, for a conditional jump, call
    /// or return, by whether its condition holds; nothing else in the
    /// processor or on the bus changes it.
    pub open spec fn spec_cost(self, instruction: AllInstructions) -> int {
        match instruction {
            AllInstructions::ADD(t)
            | AllInstructions::ADC(t)
            | AllInstructions::SUB(t)
            | AllInstructions::SBC(t)
            | AllInstructions::AND(t)
            | AllInstructions::OR(t)
            | AllInstructions::XOR(t)
            | AllInstructions::CP(t) => read_cycles(t),
            AllInstructions::INC(t) | AllInstructions::DEC(t) => 1 + 2 * (fetch_cycles(t)
                + access_cycles(t)),
            AllInstructions::LD(to, from)
            | AllInstructions::LDI(to, from)
            | AllInstructions::LDD(to, from) => load_cycles(to, from),
            AllInstructions::LD16(to, from) => load16_cycles(to, from),
            AllInstructions::ADD16(_)
            | AllInstructions::INC16(_)
            | AllInstructions::DEC16(_) => 2,
            AllInstructions::LDSP(_) | AllInstructions::POP(_) => 3,
            AllInstructions::ADDSP
            | AllInstructions::PUSH(_)
            | AllInstructions::RST(_)
            | AllInstructions::RETI(_) => 4,
            AllInstructions::JP(condition, to) => if to.is_word_register() {
                1
            } else if self.spec_cond_met(condition) {
                4
            } else {
                3
            },
            AllInstructions::JR(condition) => if self.spec_cond_met(condition) {
                3
            } else {
                2
            },
            AllInstructions::CALL(condition, _) => if self.spec_cond_met(condition) {
                6
            } else {
                3
            },
            AllInstructions::RET(condition) => if condition == FlagChecks::FA {
                4
            } else if self.spec_cond_met(condition) {
                5
            } else {
                2
            },
            AllInstructions::BIT(_, t) => 2 + fetch_cycles(t) + access_cycles(t),
            AllInstructions::RES(_, t)
            | AllInstructions::SET(_, t)
            | AllInstructions::RLC(t)
            | AllInstructions::RL(t)
            | AllInstructions::RRC(t)
            | AllInstructions::RR(t)
            | AllInstructions::SLA(t)
            | AllInstructions::SRA(t)
            | AllInstructions::SWAP(t)
            | AllInstructions::SRL(t) => 2 + 2 * (fetch_cycles(t) + access_cycles(t)),
            _ => 1,
        }
    }
}

/// The family of an instruction, by which the proofs about costs are split.
spec fn family(instruction: AllInstructions) -> int {
    match instruction {
        AllInstructions::NOP
        | AllInstructions::EMPTY
        | AllInstructions::HALT
        | AllInstructions::STOP
        | AllInstructions::DI
        | AllInstructions::EI => 0,
        AllInstructions::RLCA
        | AllInstructions::RLA
        | AllInstructions::RRCA
        | AllInstructions::RRA
        | AllInstructions::DAA
        | AllInstructions::CPL
        | AllInstructions::SCF
        | AllInstructions::CCF => 1,
        AllInstructions::ADD(_)
        | AllInstructions::ADC(_)
        | AllInstructions::SUB(_)
        | AllInstructions::SBC(_)
        | AllInstructions::AND(_)
        | AllInstructions::OR(_)
        | AllInstructions::XOR(_)
        | AllInstructions::CP(_)
        | AllInstructions::INC(_)
        | AllInstructions::DEC(_) => 2,
        AllInstructions::LD(_, _)
        | AllInstructions::LDI(_, _)
        | AllInstructions::LDD(_, _)
        | AllInstructions::LD16(_, _)
        | AllInstructions::LDSP(_)
        | AllInstructions::PUSH(_)
        | AllInstructions::POP(_) => 3,
        AllInstructions::ADD16(_)
        | AllInstructions::INC16(_)
        | AllInstructions::DEC16(_)
        | AllInstructions::ADDSP => 4,
        AllInstructions::JP(_, _)
        | AllInstructions::JR(_)
        | AllInstructions::CALL(_, _)
        | AllInstructions::RET(_)
        | AllInstructions::RETI(_)
        | AllInstructions::RST(_) => 5,
        AllInstructions::BIT(_, _)
        | AllInstructions::SET(_, _)
        | AllInstructions::RES(_, _) => 6,
        _ => 7,
    }
}

proof fn lemma_cost_control(cpu: CPU, bus: BusState, instruction: AllInstructions)
    requires
        family(instruction) == 0,
    ensures
        cpu.spec_execute(bus, instruction).2 == cpu.spec_cost(instruction),
{
    reveal(CPU::spec_execute);
}

proof fn lemma_cost_accumulator(cpu: CPU, bus: BusState, instruction: AllInstructions)
    requires
        family(instruction) == 1,
    ensures
        cpu.spec_execute(bus, instruction).2 == cpu.spec_cost(instruction),
{
    reveal(CPU::spec_execute);
}

proof fn lemma_cost_arithmetic(cpu: CPU, bus: BusState, instruction: AllInstructions)
    requires
        family(instruction) == 2,
    ensures
        cpu.spec_execute(bus, instruction).2 == cpu.spec_cost(instruction),
{
    reveal(CPU::spec_execute);
}

proof fn lemma_cost_load(cpu: CPU, bus: BusState, instruction: AllInstructions)
    requires
        family(instruction) == 3,
    ensures
        cpu.spec_execute(bus, instruction).2 == cpu.spec_cost(instruction),
{
    reveal(CPU::spec_execute);
}

proof fn lemma_cost_word(cpu: CPU, bus: BusState, instruction: AllInstructions)
    requires
        family(instruction) == 4,
    ensures
        cpu.spec_execute(bus, instruction).2 == cpu.spec_cost(instruction),
{
    reveal(CPU::spec_execute);
}

proof fn lemma_cost_jump(cpu: CPU, bus: BusState, instruction: AllInstructions)
    requires
        family(instruction) == 5,
    ensures
        cpu.spec_execute(bus, instruction).2 == cpu.spec_cost(instruction),
{
    reveal(CPU::spec_execute);
}

proof fn lemma_cost_bit(cpu: CPU, bus: BusState, instruction: AllInstructions)
    requires
        family(instruction) == 6,
    ensures
        cpu.spec_execute(bus, instruction).2 == cpu.spec_cost(instruction),
{
    reveal(CPU::spec_execute);
}

proof fn lemma_cost_shift(cpu: CPU, bus: BusState, instruction: AllInstructions)
    requires
        family(instruction) == 7,
    ensures
        cpu.spec_execute(bus, instruction).2 == cpu.spec_cost(instruction),
{
    reveal(CPU::spec_execute);
}

/// What an instruction costs depends on the instruction and on whether its
/// condition holds, and on nothing else: it is `spec_cost`, whatever the bus
/// holds. It is at least one machine cycle and at most eight.
pub proof fn lemma_cost(cpu: CPU, bus: BusState, instruction: AllInstructions)
    ensures
        cpu.spec_execute(bus, instruction).2 == cpu.spec_cost(instruction),
        1 <= cpu.spec_cost(instruction) <= 8,
{
    if family(instruction) == 0 {
        lemma_cost_control(cpu, bus, instruction);
    } else if family(instruction) == 1 {
        lemma_cost_accumulator(cpu, bus, instruction);
    } else if family(instruction) == 2 {
        lemma_cost_arithmetic(cpu, bus, instruction);
    } else if family(instruction) == 3 {
        lemma_cost_load(cpu, bus, instruction);
    } else if family(instruction) == 4 {
        lemma_cost_word(cpu, bus, instruction);
    } else if family(instruction) == 5 {
        lemma_cost_jump(cpu, bus, instruction);
    } else if family(instruction) == 6 {
        lemma_cost_bit(cpu, bus, instruction);
    } else {
        lemma_cost_shift(cpu, bus, instruction);
    }
}

/// The operands that the decoder's index tables select are registers or
/// the byte at `HL`.
proof fn lemma_grid_costs(index: int)
    ensures
        fetch_cycles(grid_register(index)) == 0,
        access_cycles(grid_register(index)) <= 1,
        pair_register(index).is_word_register(),
        stack_register(index).is_word_register(),
        forall|cpu: CPU, operand: AllRegisters|
            fetch_cycles(operand) + access_cycles(operand) <= 1 ==> #[trigger] cpu.spec_cost(
                accumulator_operation(index, operand),
            ) <= 2,
        forall|cpu: CPU, operand: AllRegisters|
            fetch_cycles(operand) + access_cycles(operand) <= 1 ==> #[trigger] cpu.spec_cost(
                shift_operation(index, operand),
            ) <= 4,
{
}

/// The cost of the instructions in blocks 0 and 3 of the unprefixed table.
proof fn lemma_block_costs(cpu: CPU, row: int, column: int)
    requires
        0 <= row < 8,
        0 <= column < 8,
    ensures
        cpu.spec_cost(decode_block0(row, column)) <= 6,
        cpu.spec_cost(decode_block3(row, column)) <= 6,
{
    lemma_grid_costs(row);
    lemma_grid_costs(row / 2);
}

/// An instruction that the decoder yields takes at most six machine
/// cycles.
pub proof fn lemma_decoded_cost(cpu: CPU, byte: u8, prefixed: bool)
    ensures
        1 <= cpu.spec_cost(AllInstructions::spec_decode(byte, prefixed)) <= 6,
{
    let row = byte as int / 8 % 8;
    let column = byte as int % 8;
    lemma_grid_costs(row);
    lemma_grid_costs(column);
    if !prefixed {
        lemma_block_costs(cpu, row, column);
    }
}

} // verus!
