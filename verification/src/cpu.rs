//! The processor: its registers, how it reaches its operands, the
//! fetch-decode-execute step and the dispatch of interrupts.
//!
//! The processor does not own the bus; every operation that touches memory
//! or a cursor takes the bus as a parameter. What each instruction does is
//! stated in `semantics` and carried out in `execute`.

use vstd::prelude::*;
use crate::alu::{
    add_offset, add_signed, bit_is_set, clear_bit, lemma_bit_weights, lemma_common_bits,
    offset_word, reset_bit, signed_offset, ByteResult,
};
use crate::instructions::{AllInstructions, AllRegisters, FlagChecks, InterruptIDs};
use crate::memory::{is_storage, wrap16, BusState, MemoryBus, IE_ADDRESS, IF_ADDRESS};
use crate::registers::{high_byte, join, low_byte, split, FlagsRegister, Registers};
use crate::semantics::{lemma_cost, lemma_decoded_cost};

verus! {

/// The processor: its registers and whether it is halted.
#[derive(Clone, Copy, Debug, PartialEq, Eq, Structural)]
pub struct CPU {
    pub registers: Registers,
    pub halted: bool,
}

impl CPU {
    /// The processor with its flags replaced.
    pub open spec fn with_f(self, flags: FlagsRegister) -> CPU {
        CPU { registers: Registers { f: flags, ..self.registers }, ..self }
    }

    /// The processor with its accumulator and flags replaced.
    pub open spec fn with_a_f(self, result: ByteResult) -> CPU {
        CPU { registers: Registers { a: result.0, f: result.1, ..self.registers }, ..self }
    }

    /// The processor with its registers replaced.
    pub open spec fn with_registers(self, registers: Registers) -> CPU {
        CPU { registers, ..self }
    }

    /// The address that a memory operand names, and the bus after the
    /// immediate bytes of the operand have been fetched. An operand that
    /// names no memory gives address zero.
    pub open spec fn spec_rel_loc(self, bus: BusState, target: AllRegisters) -> (u16, BusState) {
        match target {
            AllRegisters::RAF => (self.registers.spec_af(), bus),
            AllRegisters::RBC => (self.registers.spec_bc(), bus),
            AllRegisters::RDE => (self.registers.spec_de(), bus),
            AllRegisters::RHL => (self.registers.spec_hl(), bus),
            AllRegisters::RFFC => ((0xFF00 + self.registers.c) as u16, bus),
            AllRegisters::RFFU8 => {
                let (offset, fetched) = bus.fetch();
                ((0xFF00 + offset) as u16, fetched)
            },
            AllRegisters::RU16 => bus.fetch16(),
            _ => (0, bus),
        }
    }

    /// The byte that an operand names, and the bus after reading it. An
    /// operand that is neither a byte register nor the immediate byte is
    /// read from memory at the address `spec_rel_loc` gives.
    pub open spec fn spec_get8(self, bus: BusState, target: AllRegisters) -> (u8, BusState) {
        match target {
            AllRegisters::A => (self.registers.a, bus),
            AllRegisters::B => (self.registers.b, bus),
            AllRegisters::C => (self.registers.c, bus),
            AllRegisters::D => (self.registers.d, bus),
            AllRegisters::E => (self.registers.e, bus),
            AllRegisters::F => (self.registers.f.spec_byte(), bus),
            AllRegisters::H => (self.registers.h, bus),
            AllRegisters::L => (self.registers.l, bus),
            AllRegisters::U8 => bus.fetch(),
            _ => {
                let (loc, fetched) = self.spec_rel_loc(bus, target);
                (fetched.read(loc), fetched)
            },
        }
    }

    /// The processor and the bus after `val` is written to the byte that an
    /// operand names. An operand that is no byte register is written to
    /// memory at the address `spec_rel_loc` gives.
    pub open spec fn spec_set8(self, bus: BusState, target: AllRegisters, val: u8) -> (
        CPU,
        BusState,
    ) {
        let r = self.registers;
        match target {
            AllRegisters::A => (self.with_registers(Registers { a: val, ..r }), bus),
            AllRegisters::B => (self.with_registers(Registers { b: val, ..r }), bus),
            AllRegisters::C => (self.with_registers(Registers { c: val, ..r }), bus),
            AllRegisters::D => (self.with_registers(Registers { d: val, ..r }), bus),
            AllRegisters::E => (self.with_registers(Registers { e: val, ..r }), bus),
            AllRegisters::F => (self.with_f(FlagsRegister::spec_from_byte(val)), bus),
            AllRegisters::H => (self.with_registers(Registers { h: val, ..r }), bus),
            AllRegisters::L => (self.with_registers(Registers { l: val, ..r }), bus),
            _ => {
                let (loc, fetched) = self.spec_rel_loc(bus, target);
                (self, fetched.write(loc, val))
            },
        }
    }

    /// The word that an operand names, with the processor and the bus after
    /// reading it. `SP` plus an offset leaves the flags of that addition.
    /// An operand that names no word reads as zero.
    pub open spec fn spec_get16(self, bus: BusState, target: AllRegisters) -> (
        u16,
        CPU,
        BusState,
    ) {
        match target {
            AllRegisters::AF => (self.registers.spec_af(), self, bus),
            AllRegisters::BC => (self.registers.spec_bc(), self, bus),
            AllRegisters::DE => (self.registers.spec_de(), self, bus),
            AllRegisters::HL => (self.registers.spec_hl(), self, bus),
            AllRegisters::SP => (bus.sp, self, bus),
            AllRegisters::U16 => {
                let (value, fetched) = bus.fetch16();
                (value, self, fetched)
            },
            AllRegisters::SPI8 => {
                let (offset, fetched) = bus.fetch();
                let (value, flags) = add_offset(bus.sp, offset);
                (value, self.with_f(flags), fetched)
            },
            _ => (0, self, bus),
        }
    }

    /// The processor and the bus after `value` is written to the word that
    /// an operand names. A word in memory is stored low byte first. An
    /// operand that names no writable word leaves everything as it was.
    pub open spec fn spec_set16(self, bus: BusState, target: AllRegisters, value: u16) -> (
        CPU,
        BusState,
    ) {
        match target {
            AllRegisters::AF => (self.with_registers(self.registers.with_af(value)), bus),
            AllRegisters::BC => (self.with_registers(self.registers.with_bc(value)), bus),
            AllRegisters::DE => (self.with_registers(self.registers.with_de(value)), bus),
            AllRegisters::HL => (self.with_registers(self.registers.with_hl(value)), bus),
            AllRegisters::SP => (self, BusState { sp: value, ..bus }),
            AllRegisters::RU16 => {
                let (loc, fetched) = bus.fetch16();
                (
                    self,
                    fetched.write(loc, low_byte(value)).write(wrap16(loc + 1), high_byte(value)),
                )
            },
            _ => (self, bus),
        }
    }

    /// Whether a condition holds of the flags.
    pub open spec fn spec_cond_met(self, condition: FlagChecks) -> bool {
        match condition {
            FlagChecks::FNZ => !self.registers.f.zero,
            FlagChecks::FZ => self.registers.f.zero,
            FlagChecks::FNC => !self.registers.f.carry,
            FlagChecks::FC => self.registers.f.carry,
            FlagChecks::FA => true,
        }
    }

    /// A processor with all registers zero, running.
    pub fn new() -> (cpu: Self)
        ensures
            cpu == (CPU {
                registers: Registers {
                    a: 0,
                    b: 0,
                    c: 0,
                    d: 0,
                    e: 0,
                    f: FlagsRegister {
                        zero: false,
                        subtract: false,
                        half_carry: false,
                        carry: false,
                    },
                    h: 0,
                    l: 0,
                },
                halted: false,
            }),
    {
        CPU { registers: Registers::new(), halted: false }
    }

    /// Reads the byte that an operand names.
    pub fn get_register_u8(&self, bus: &mut MemoryBus, target: AllRegisters) -> (val: u8)
        ensures
            (val, final(bus)@) == self.spec_get8(old(bus)@, target),
    {
        match target {
            AllRegisters::A => self.registers.a,
            AllRegisters::B => self.registers.b,
            AllRegisters::C => self.registers.c,
            AllRegisters::D => self.registers.d,
            AllRegisters::E => self.registers.e,
            AllRegisters::F => u8::from(self.registers.f),
            AllRegisters::H => self.registers.h,
            AllRegisters::L => self.registers.l,
            AllRegisters::U8 => bus.read_increment(),
            _ => {
                let loc = self.get_rel_loc(bus, target);
                bus.read_byte(loc)
            },
        }
    }

    /// Writes `val` to the byte that an operand names.
    pub fn set_register_u8(&mut self, bus: &mut MemoryBus, target: AllRegisters, val: u8)
        ensures
            (*final(self), final(bus)@) == old(self).spec_set8(old(bus)@, target, val),
    {
        match target {
            AllRegisters::A => {
                self.registers.a = val;
            },
            AllRegisters::B => {
                self.registers.b = val;
            },
            AllRegisters::C => {
                self.registers.c = val;
            },
            AllRegisters::D => {
                self.registers.d = val;
            },
            AllRegisters::E => {
                self.registers.e = val;
            },
            AllRegisters::F => {
                self.registers.f = FlagsRegister::from(val);
            },
            AllRegisters::H => {
                self.registers.h = val;
            },
            AllRegisters::L => {
                self.registers.l = val;
            },
            _ => {
                let loc = self.get_rel_loc(bus, target);
                bus.write_byte(loc, val);
            },
        }
    }

    /// Reads the word that an operand names.
    pub fn get_register_u16(&mut self, bus: &mut MemoryBus, target: AllRegisters) -> (val: u16)
        ensures
            (val, *final(self), final(bus)@) == old(self).spec_get16(old(bus)@, target),
    {
        match target {
            AllRegisters::AF => self.registers.get_af(),
            AllRegisters::BC => self.registers.get_bc(),
            AllRegisters::DE => self.registers.get_de(),
            AllRegisters::HL => self.registers.get_hl(),
            AllRegisters::SP => bus.sp,
            AllRegisters::U16 => {
                let lsb = bus.read_increment();
                let msb = bus.read_increment();
                join(msb, lsb)
            },
            AllRegisters::SPI8 => {
                let sp = bus.sp;
                let offset = bus.read_increment();
                self.add_i8_flags(sp, offset)
            },
            _ => 0x0,
        }
    }

    /// Writes `value` to the word that an operand names.
    pub fn set_register_u16(&mut self, bus: &mut MemoryBus, target: AllRegisters, value: u16)
        ensures
            (*final(self), final(bus)@) == old(self).spec_set16(old(bus)@, target, value),
    {
        match target {
            AllRegisters::AF => {
                self.registers.set_af(value);
            },
            AllRegisters::BC => {
                self.registers.set_bc(value);
            },
            AllRegisters::DE => {
                self.registers.set_de(value);
            },
            AllRegisters::HL => {
                self.registers.set_hl(value);
            },
            AllRegisters::SP => {
                bus.sp = value;
            },
            AllRegisters::RU16 => {
                let (msb, lsb) = split(value);
                let lo = bus.read_increment();
                let hi = bus.read_increment();
                let loc = join(hi, lo);
                bus.write_byte(loc, lsb);
                bus.write_byte(loc.wrapping_add(1), msb);
            },
            _ => {},
        }
    }

    /// Forms the address that a memory operand names.
    pub fn get_rel_loc(&self, bus: &mut MemoryBus, target: AllRegisters) -> (loc: u16)
        ensures
            (loc, final(bus)@) == self.spec_rel_loc(old(bus)@, target),
    {
        match target {
            AllRegisters::RAF => self.registers.get_af(),
            AllRegisters::RBC => self.registers.get_bc(),
            AllRegisters::RDE => self.registers.get_de(),
            AllRegisters::RHL => self.registers.get_hl(),
            AllRegisters::RFFC => join(0xFF, self.registers.c),
            AllRegisters::RFFU8 => {
                let offset = bus.read_increment();
                join(0xFF, offset)
            },
            AllRegisters::RU16 => {
                let lower = bus.read_increment();
                let upper = bus.read_increment();
                join(upper, lower)
            },
            _ => 0x0,
        }
    }

    /// Tests a condition against the flags.
    pub fn get_cond_met(&self, condition: FlagChecks) -> (met: bool)
        ensures
            met == self.spec_cond_met(condition),
    {
        match condition {
            FlagChecks::FNZ => !self.registers.f.zero,
            FlagChecks::FZ => self.registers.f.zero,
            FlagChecks::FNC => !self.registers.f.carry,
            FlagChecks::FC => self.registers.f.carry,
            FlagChecks::FA => true,
        }
    }

    /// Adds a signed offset to `base` and leaves the flags of that addition.
    pub fn add_i8_flags(&mut self, base: u16, offset: u8) -> (new_value: u16)
        ensures
            new_value == add_offset(base, offset).0,
            *final(self) == old(self).with_f(add_offset(base, offset).1),
    {
        let (new_value, flags) = add_signed(base, offset);
        self.registers.set_flags(flags.zero, flags.subtract, flags.half_carry, flags.carry);
        new_value
    }

    /// Adds a signed offset to `base`, wrapping at 16 bits.
    pub fn add_i8(base: u16, offset: u8) -> (new_value: u16)
        ensures
            new_value == wrap16(base + signed_offset(offset)),
    {
        offset_word(base, offset)
    }
}

/// T-cycles that the dispatch of an interrupt takes: five machine cycles.
pub const INTERRUPT_CYCLES: u16 = 20;

/// Whether an interrupt source is requested and enabled: its bit is set in
/// the interrupt-flag byte and in the interrupt-enable byte.
pub open spec fn is_requested(bus: BusState, id: InterruptIDs) -> bool {
    bit_is_set(bus.inf, id.spec_rank() as u8) && bit_is_set(
        bus.read(IE_ADDRESS),
        id.spec_rank() as u8,
    )
}

/// The requested and enabled source of the highest priority, if any.
pub open spec fn first_requested(bus: BusState) -> Option<InterruptIDs> {
    if is_requested(bus, InterruptIDs::VBlank) {
        Some(InterruptIDs::VBlank)
    } else if is_requested(bus, InterruptIDs::LCDStat) {
        Some(InterruptIDs::LCDStat)
    } else if is_requested(bus, InterruptIDs::Timer) {
        Some(InterruptIDs::Timer)
    } else if is_requested(bus, InterruptIDs::Serial) {
        Some(InterruptIDs::Serial)
    } else if is_requested(bus, InterruptIDs::Joypad) {
        Some(InterruptIDs::Joypad)
    } else {
        None
    }
}

impl CPU {
    /// One step of the processor: nothing and zero cycles while halted;
    /// otherwise one instruction is fetched, with its prefix if it has one,
    /// decoded and executed, and its cost is returned in T-cycles.
    pub open spec fn spec_step(self, bus: BusState) -> (CPU, BusState, u16) {
        if self.halted {
            (self, bus, 0)
        } else {
            let (opcode, first) = bus.fetch();
            let prefixed = opcode == 0xCB;
            let (byte, fetched) = if prefixed {
                first.fetch()
            } else {
                (opcode, first)
            };
            let (cpu, after, cycles) = self.spec_execute(
                fetched,
                AllInstructions::spec_decode(byte, prefixed),
            );
            (cpu, after, (cycles * 4) as u16)
        }
    }

    /// The bus after the request of `id` is taken: its bit in the
    /// interrupt-flag byte is cleared, then `pc` is pushed and moved to the
    /// handler.
    pub open spec fn spec_handle(bus: BusState, id: InterruptIDs) -> BusState {
        let taken = BusState { inf: reset_bit(bus.inf, id.spec_rank() as u8), ..bus };
        taken.push(bus.pc).jump(id.spec_handler(), true)
    }

    /// The check for interrupts between two steps. A requested and enabled
    /// source wakes a halted processor whatever the master enable says.
    /// With the master enable set, the source of the highest priority is
    /// dispatched: the master enable is cleared, the request is taken, and
    /// the dispatch costs `INTERRUPT_CYCLES`.
    pub open spec fn spec_check_for_interrupts(self, bus: BusState) -> (CPU, BusState, u16) {
        match first_requested(bus) {
            None => (self, bus, 0),
            Some(id) => {
                let awake = CPU { halted: false, ..self };
                if bus.ime {
                    (
                        awake,
                        Self::spec_handle(BusState { ime: false, ..bus }, id),
                        INTERRUPT_CYCLES,
                    )
                } else {
                    (awake, bus, 0)
                }
            },
        }
    }

    /// Executes one step and returns the T-cycles it took.
    pub fn step(&mut self, bus: &mut MemoryBus) -> (cycles: u16)
        ensures
            (*final(self), final(bus)@, cycles) == old(self).spec_step(old(bus)@),
    {
        if self.halted {
            return 0;
        }
        let mut instruction_byte = bus.read_increment();
        let prefixed = instruction_byte == 0xCB;
        if prefixed {
            instruction_byte = bus.read_increment();
        }
        match AllInstructions::decode(instruction_byte, prefixed) {
            Some(instruction) => (self.execute(bus, instruction) as u16) * 4,
            None => 0,
        }
    }

    /// Checks for a requested and enabled interrupt and dispatches it if
    /// the master enable allows. Returns the T-cycles the dispatch took.
    pub fn check_for_interrupts(&mut self, bus: &mut MemoryBus) -> (cycles: u16)
        ensures
            (*final(self), final(bus)@, cycles) == old(self).spec_check_for_interrupts(old(bus)@),
    {
        let enabled = bus.read_byte(IE_ADDRESS);
        let query = bus.inf & enabled;
        proof {
            lemma_bit_weights(bus.inf);
            lemma_bit_weights(enabled);
            lemma_common_bits(bus.inf, enabled);
        }
        let target = if query & 0x01 != 0 {
            InterruptIDs::VBlank
        } else if query & 0x02 != 0 {
            InterruptIDs::LCDStat
        } else if query & 0x04 != 0 {
            InterruptIDs::Timer
        } else if query & 0x08 != 0 {
            InterruptIDs::Serial
        } else if query & 0x10 != 0 {
            InterruptIDs::Joypad
        } else {
            return 0;
        };
        self.halted = false;
        if bus.ime {
            bus.ime = false;
            self.handle_interrupts(bus, target);
            INTERRUPT_CYCLES
        } else {
            0
        }
    }

    /// Takes the request of `inter_type` and enters its handler.
    pub fn handle_interrupts(&mut self, bus: &mut MemoryBus, inter_type: InterruptIDs)
        ensures
            *final(self) == *old(self),
            final(bus)@ == Self::spec_handle(old(bus)@, inter_type),
    {
        let pc = bus.pc;
        bus.inf = clear_bit(bus.inf, inter_type.rank());
        bus.push(pc);
        bus.pc = inter_type.handler();
    }
}

/// With the master enable set, the requested and enabled source of the
/// highest priority is dispatched: the master enable is cleared, a halted
/// processor wakes, `pc` moves to the handler of the source, and the stack
/// pointer ends two below where it was. Unless the stack reaches the
/// interrupt-flag byte, only the bit of the source is cleared there; and
/// where the two bytes below the stack pointer are storage, the address
/// popped next is the `pc` from before the dispatch.
pub proof fn lemma_dispatch(cpu: CPU, bus: MemoryBus, id: InterruptIDs)
    requires
        bus.ime,
        first_requested(bus@) == Some(id),
    ensures
        ({
            let (awake, after, cycles) = cpu.spec_check_for_interrupts(bus@);
            let top = wrap16(bus.sp - 1);
            let below = wrap16(bus.sp - 2);
            &&& cycles == INTERRUPT_CYCLES
            &&& !after.ime
            &&& !awake.halted
            &&& awake.registers == cpu.registers
            &&& after.pc == id.spec_handler()
            &&& after.sp == below
            &&& top != IF_ADDRESS && below != IF_ADDRESS ==> after.inf == reset_bit(
                bus.inf,
                id.spec_rank() as u8,
            )
            &&& is_storage(top) && is_storage(below) ==> after.pop().0 == bus.pc
        }),
{
    let taken = BusState {
        inf: reset_bit(bus.inf, id.spec_rank() as u8),
        ime: false,
        ..bus@
    };
    let s1 = BusState { sp: wrap16(taken.sp - 1), ..taken };
    let s2 = s1.write(s1.sp, high_byte(bus.pc));
    let s3 = BusState { sp: wrap16(s2.sp - 1), ..s2 };
    let s4 = s3.write(s3.sp, low_byte(bus.pc));
    assert(s4 == taken.push(bus.pc));
    assert(wrap16(s4.sp + 1) == s1.sp);
    if is_storage(s1.sp) && is_storage(s3.sp) {
        assert(s4.read(s4.sp) == low_byte(bus.pc));
        assert(s2.read(s1.sp) == high_byte(bus.pc));
        assert(s4.read(s1.sp) == high_byte(bus.pc));
        crate::registers::lemma_halves(0, 0, bus.pc);
    }
}

/// Without the master enable, or with no source both requested and
/// enabled, nothing is dispatched: the bus is left as it was and no cycles
/// pass. A halted processor stays halted only while nothing is requested.
pub proof fn lemma_no_dispatch(cpu: CPU, bus: MemoryBus)
    requires
        !bus.ime || first_requested(bus@) is None,
    ensures
        ({
            let (after_cpu, after, cycles) = cpu.spec_check_for_interrupts(bus@);
            &&& cycles == 0
            &&& after == bus@
            &&& after_cpu.registers == cpu.registers
            &&& after_cpu.halted == (cpu.halted && first_requested(bus@) is None)
        }),
{
}

/// A step takes no cycles exactly when the processor is halted, and
/// never more than 24.
pub proof fn lemma_step_cost(cpu: CPU, bus: MemoryBus)
    ensures
        (cpu.spec_step(bus@).2 == 0) == cpu.halted,
        cpu.spec_step(bus@).2 <= 24,
{
    if !cpu.halted {
        let (opcode, first) = bus@.fetch();
        let prefixed = opcode == 0xCB;
        let (byte, fetched) = if prefixed {
            first.fetch()
        } else {
            (opcode, first)
        };
        lemma_cost(cpu, fetched, AllInstructions::spec_decode(byte, prefixed));
        lemma_decoded_cost(cpu, byte, prefixed);
    }
}

} // verus!
