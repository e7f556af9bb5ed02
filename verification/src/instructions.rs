//! Instructions as values, and the decoder from opcode bytes to them.
//!
//! The decoder is specified by the fields of an opcode byte: its top two
//! bits (the block), the three bits below them (the row) and its lowest
//! three bits (the column). The executable decoder is a table; it is proved
//! to agree with that description on every byte.

use vstd::prelude::*;
use self::AllInstructions::{
    ADC, ADD, ADD16, ADDSP, AND, BIT, CALL, CCF, CP, CPL, DAA, DEC, DEC16, DI, EI, EMPTY, HALT,
    INC, INC16, JP, JR, LD, LD16, LDD, LDI, LDSP, NOP, OR, POP, PUSH, RES, RET, RETI, RL, RLA,
    RLC, RLCA, RR, RRA, RRC, RRCA, RST, SBC, SCF, SET, SLA, SRA, SRL, STOP, SUB, SWAP, XOR,
};
use self::AllRegisters::{
    A, AF, B, BC, C, D, DE, E, H, HL, L, RBC, RDE, RFFC, RFFU8, RHL, RU16, SP, U16, U8,
};
use self::FlagChecks::{FA, FC, FNC, FNZ, FZ};
use self::RstParameters::{R00H, R08H, R10H, R18H, R20H, R28H, R30H, R38H};

verus! {

/// An operand of an instruction.
#[derive(Clone, Copy, Debug, PartialEq, Eq, Structural)]
pub enum AllRegisters {
    // Registers and immediates.
    A,
    B,
    C,
    D,
    E,
    F,
    H,
    L,
    AF,
    BC,
    DE,
    HL,
    SP,
    /// The byte that follows in the instruction stream.
    U8,
    /// The little-endian word that follows in the instruction stream.
    U16,
    // Memory, by the address held or formed.
    RAF,
    RBC,
    RDE,
    RHL,
    /// The byte at `0xFF00 + C`.
    RFFC,
    /// The byte at `0xFF00 +` the byte that follows.
    RFFU8,
    /// `SP` plus the signed byte that follows.
    SPI8,
    /// The memory at the word that follows.
    RU16,
}

/// The condition of a jump, call or return.
#[derive(Clone, Copy, Debug, PartialEq, Eq, Structural)]
pub enum FlagChecks {
    FNZ,
    FZ,
    FNC,
    FC,
    /// Always.
    FA,
}

/// The target of a restart.
#[derive(Clone, Copy, Debug, PartialEq, Eq, Structural)]
pub enum RstParameters {
    R00H,
    R08H,
    R10H,
    R18H,
    R20H,
    R28H,
    R30H,
    R38H,
}

/// The five interrupt sources, in descending priority.
#[derive(Clone, Copy, Debug, PartialEq, Eq, Structural)]
pub enum InterruptIDs {
    VBlank,
    LCDStat,
    Timer,
    Serial,
    Joypad,
}

/// A decoded instruction.
#[derive(Clone, Copy, Debug, PartialEq, Eq, Structural)]
pub enum AllInstructions {
    NOP,
    /// An opcode the processor does not define; it behaves as a no-op.
    EMPTY,
    HALT,
    STOP,
    DI,
    EI,
    RLCA,
    RLA,
    RRCA,
    RRA,
    DAA,
    CPL,
    SCF,
    CCF,
    ADD(AllRegisters),
    ADC(AllRegisters),
    SUB(AllRegisters),
    SBC(AllRegisters),
    AND(AllRegisters),
    OR(AllRegisters),
    XOR(AllRegisters),
    CP(AllRegisters),
    INC(AllRegisters),
    DEC(AllRegisters),
    /// 8-bit load: destination, source.
    LD(AllRegisters, AllRegisters),
    /// 8-bit load followed by an increment of `HL`.
    LDI(AllRegisters, AllRegisters),
    /// 8-bit load followed by a decrement of `HL`.
    LDD(AllRegisters, AllRegisters),
    /// 16-bit load: destination, source.
    LD16(AllRegisters, AllRegisters),
    /// Adds a register pair to `HL`.
    ADD16(AllRegisters),
    INC16(AllRegisters),
    DEC16(AllRegisters),
    /// Adds the signed byte that follows to `SP`.
    ADDSP,
    /// Loads `SP` plus the signed byte that follows into a register pair.
    LDSP(AllRegisters),
    JP(FlagChecks, AllRegisters),
    JR(FlagChecks),
    CALL(FlagChecks, AllRegisters),
    RET(FlagChecks),
    RETI(FlagChecks),
    RST(RstParameters),
    PUSH(AllRegisters),
    POP(AllRegisters),
    BIT(u8, AllRegisters),
    RES(u8, AllRegisters),
    SET(u8, AllRegisters),
    RLC(AllRegisters),
    RL(AllRegisters),
    RRC(AllRegisters),
    RR(AllRegisters),
    SLA(AllRegisters),
    SRA(AllRegisters),
    SWAP(AllRegisters),
    SRL(AllRegisters),
}

impl InterruptIDs {
    /// The source's bit in the interrupt-flag and interrupt-enable bytes.
    pub open spec fn spec_mask(self) -> u8 {
        match self {
            InterruptIDs::VBlank => 0x01,
            InterruptIDs::LCDStat => 0x02,
            InterruptIDs::Timer => 0x04,
            InterruptIDs::Serial => 0x08,
            InterruptIDs::Joypad => 0x10,
        }
    }

    /// The address of the source's handler.
    pub open spec fn spec_handler(self) -> u16 {
        match self {
            InterruptIDs::VBlank => 0x40,
            InterruptIDs::LCDStat => 0x48,
            InterruptIDs::Timer => 0x50,
            InterruptIDs::Serial => 0x58,
            InterruptIDs::Joypad => 0x60,
        }
    }

    /// The source's position in the priority order, 0 first.
    pub open spec fn spec_rank(self) -> int {
        match self {
            InterruptIDs::VBlank => 0,
            InterruptIDs::LCDStat => 1,
            InterruptIDs::Timer => 2,
            InterruptIDs::Serial => 3,
            InterruptIDs::Joypad => 4,
        }
    }

    pub fn rank(self) -> (r: u8)
        ensures
            r == self.spec_rank(),
    {
        match self {
            InterruptIDs::VBlank => 0,
            InterruptIDs::LCDStat => 1,
            InterruptIDs::Timer => 2,
            InterruptIDs::Serial => 3,
            InterruptIDs::Joypad => 4,
        }
    }

    pub fn mask(self) -> (m: u8)
        ensures
            m == self.spec_mask(),
    {
        match self {
            InterruptIDs::VBlank => 0x01,
            InterruptIDs::LCDStat => 0x02,
            InterruptIDs::Timer => 0x04,
            InterruptIDs::Serial => 0x08,
            InterruptIDs::Joypad => 0x10,
        }
    }

    pub fn handler(self) -> (addr: u16)
        ensures
            addr == self.spec_handler(),
    {
        match self {
            InterruptIDs::VBlank => 0x40,
            InterruptIDs::LCDStat => 0x48,
            InterruptIDs::Timer => 0x50,
            InterruptIDs::Serial => 0x58,
            InterruptIDs::Joypad => 0x60,
        }
    }
}

impl RstParameters {
    /// The address that the restart jumps to.
    pub open spec fn spec_target(self) -> u16 {
        match self {
            RstParameters::R00H => 0x00,
            RstParameters::R08H => 0x08,
            RstParameters::R10H => 0x10,
            RstParameters::R18H => 0x18,
            RstParameters::R20H => 0x20,
            RstParameters::R28H => 0x28,
            RstParameters::R30H => 0x30,
            RstParameters::R38H => 0x38,
        }
    }

    pub fn target(self) -> (addr: u16)
        ensures
            addr == self.spec_target(),
    {
        match self {
            RstParameters::R00H => 0x00,
            RstParameters::R08H => 0x08,
            RstParameters::R10H => 0x10,
            RstParameters::R18H => 0x18,
            RstParameters::R20H => 0x20,
            RstParameters::R28H => 0x28,
            RstParameters::R30H => 0x30,
            RstParameters::R38H => 0x38,
        }
    }
}

impl AllRegisters {
    /// Whether the operand names a byte that can be read.
    pub open spec fn is_byte_source(self) -> bool {
        self == AllRegisters::U8 || self.is_byte_target()
    }

    /// Whether the operand names a byte that can be written.
    pub open spec fn is_byte_target(self) -> bool {
        self.is_byte_register() || self.is_memory()
    }

    /// Whether the operand is one of the eight 8-bit registers.
    pub open spec fn is_byte_register(self) -> bool {
        match self {
            AllRegisters::A
            | AllRegisters::B
            | AllRegisters::C
            | AllRegisters::D
            | AllRegisters::E
            | AllRegisters::F
            | AllRegisters::H
            | AllRegisters::L => true,
            _ => false,
        }
    }

    /// Whether the operand names a byte in memory.
    pub open spec fn is_memory(self) -> bool {
        match self {
            AllRegisters::RAF
            | AllRegisters::RBC
            | AllRegisters::RDE
            | AllRegisters::RHL
            | AllRegisters::RFFC
            | AllRegisters::RFFU8
            | AllRegisters::RU16 => true,
            _ => false,
        }
    }

    /// Whether the operand is a register pair or the stack pointer.
    pub open spec fn is_word_register(self) -> bool {
        match self {
            AllRegisters::AF
            | AllRegisters::BC
            | AllRegisters::DE
            | AllRegisters::HL
            | AllRegisters::SP => true,
            _ => false,
        }
    }

    /// Whether the operand names a word that can be read.
    pub open spec fn is_word_source(self) -> bool {
        self.is_word_register() || self == AllRegisters::U16 || self == AllRegisters::SPI8
    }

    /// Whether the operand names a word that can be written.
    pub open spec fn is_word_target(self) -> bool {
        self.is_word_register() || self == AllRegisters::RU16
    }
}

impl AllInstructions {
    /// Whether the operands fit the operation: byte operations have byte
    /// operands, word operations word operands, and a bit position is
    /// below 8. Every decoded instruction is well formed.
    pub open spec fn well_formed(self) -> bool {
        match self {
            AllInstructions::ADD(r)
            | AllInstructions::ADC(r)
            | AllInstructions::SUB(r)
            | AllInstructions::SBC(r)
            | AllInstructions::AND(r)
            | AllInstructions::OR(r)
            | AllInstructions::XOR(r)
            | AllInstructions::CP(r) => r.is_byte_source(),
            AllInstructions::INC(r)
            | AllInstructions::DEC(r)
            | AllInstructions::RLC(r)
            | AllInstructions::RL(r)
            | AllInstructions::RRC(r)
            | AllInstructions::RR(r)
            | AllInstructions::SLA(r)
            | AllInstructions::SRA(r)
            | AllInstructions::SWAP(r)
            | AllInstructions::SRL(r) => r.is_byte_target(),
            AllInstructions::LD(to, from)
            | AllInstructions::LDI(to, from)
            | AllInstructions::LDD(to, from) => to.is_byte_target() && from.is_byte_source(),
            AllInstructions::LD16(to, from) => to.is_word_target() && from.is_word_source(),
            AllInstructions::ADD16(r)
            | AllInstructions::INC16(r)
            | AllInstructions::DEC16(r)
            | AllInstructions::PUSH(r)
            | AllInstructions::POP(r)
            | AllInstructions::LDSP(r) => r.is_word_register(),
            AllInstructions::JP(_, to) | AllInstructions::CALL(_, to) => to.is_word_source(),
            AllInstructions::BIT(n, r)
            | AllInstructions::RES(n, r)
            | AllInstructions::SET(n, r) => n < 8 && r.is_byte_target(),
            _ => true,
        }
    }
}

impl AllInstructions {
    /// Whether the instruction touches neither registers nor memory.
    pub open spec fn is_control(self) -> bool {
        match self {
            AllInstructions::NOP
            | AllInstructions::EMPTY
            | AllInstructions::HALT
            | AllInstructions::STOP
            | AllInstructions::DI
            | AllInstructions::EI => true,
            _ => false,
        }
    }

    /// Whether the instruction works on the accumulator and the flags alone.
    pub open spec fn is_accumulator(self) -> bool {
        match self {
            AllInstructions::RLCA
            | AllInstructions::RLA
            | AllInstructions::RRCA
            | AllInstructions::RRA
            | AllInstructions::DAA
            | AllInstructions::CPL
            | AllInstructions::SCF
            | AllInstructions::CCF => true,
            _ => false,
        }
    }
}

/// The operand that a 3-bit register index selects.
pub open spec fn grid_register(index: int) -> AllRegisters {
    if index == 0 {
        AllRegisters::B
    } else if index == 1 {
        AllRegisters::C
    } else if index == 2 {
        AllRegisters::D
    } else if index == 3 {
        AllRegisters::E
    } else if index == 4 {
        AllRegisters::H
    } else if index == 5 {
        AllRegisters::L
    } else if index == 6 {
        AllRegisters::RHL
    } else {
        AllRegisters::A
    }
}

/// The register pair that a 2-bit index selects in loads and arithmetic.
pub open spec fn pair_register(index: int) -> AllRegisters {
    if index == 0 {
        AllRegisters::BC
    } else if index == 1 {
        AllRegisters::DE
    } else if index == 2 {
        AllRegisters::HL
    } else {
        AllRegisters::SP
    }
}

/// The register pair that a 2-bit index selects in pushes and pops.
pub open spec fn stack_register(index: int) -> AllRegisters {
    if index == 3 {
        AllRegisters::AF
    } else {
        pair_register(index)
    }
}

/// The condition that a 2-bit index selects.
pub open spec fn condition_of(index: int) -> FlagChecks {
    if index == 0 {
        FlagChecks::FNZ
    } else if index == 1 {
        FlagChecks::FZ
    } else if index == 2 {
        FlagChecks::FNC
    } else {
        FlagChecks::FC
    }
}

/// The restart that a row selects: row `n` restarts at `8 * n`.
pub open spec fn restart_of(row: int) -> RstParameters {
    if row == 0 {
        RstParameters::R00H
    } else if row == 1 {
        RstParameters::R08H
    } else if row == 2 {
        RstParameters::R10H
    } else if row == 3 {
        RstParameters::R18H
    } else if row == 4 {
        RstParameters::R20H
    } else if row == 5 {
        RstParameters::R28H
    } else if row == 6 {
        RstParameters::R30H
    } else {
        RstParameters::R38H
    }
}

/// The arithmetic or logic operation on the accumulator that a row selects.
pub open spec fn accumulator_operation(row: int, operand: AllRegisters) -> AllInstructions {
    if row == 0 {
        AllInstructions::ADD(operand)
    } else if row == 1 {
        AllInstructions::ADC(operand)
    } else if row == 2 {
        AllInstructions::SUB(operand)
    } else if row == 3 {
        AllInstructions::SBC(operand)
    } else if row == 4 {
        AllInstructions::AND(operand)
    } else if row == 5 {
        AllInstructions::XOR(operand)
    } else if row == 6 {
        AllInstructions::OR(operand)
    } else {
        AllInstructions::CP(operand)
    }
}

/// The rotate, shift or swap that a row of the prefixed table selects.
pub open spec fn shift_operation(row: int, operand: AllRegisters) -> AllInstructions {
    if row == 0 {
        AllInstructions::RLC(operand)
    } else if row == 1 {
        AllInstructions::RRC(operand)
    } else if row == 2 {
        AllInstructions::RL(operand)
    } else if row == 3 {
        AllInstructions::RR(operand)
    } else if row == 4 {
        AllInstructions::SLA(operand)
    } else if row == 5 {
        AllInstructions::SRA(operand)
    } else if row == 6 {
        AllInstructions::SWAP(operand)
    } else {
        AllInstructions::SRL(operand)
    }
}

/// Block 0 of the unprefixed table (`0x00` to `0x3F`).
pub open spec fn decode_block0(row: int, column: int) -> AllInstructions {
    let half = row / 2;
    let odd = row % 2 == 1;
    if column == 0 {
        if row == 0 {
            AllInstructions::NOP
        } else if row == 1 {
            AllInstructions::LD16(AllRegisters::RU16, AllRegisters::SP)
        } else if row == 2 {
            AllInstructions::STOP
        } else if row == 3 {
            AllInstructions::JR(FlagChecks::FA)
        } else {
            AllInstructions::JR(condition_of(row - 4))
        }
    } else if column == 1 {
        if odd {
            AllInstructions::ADD16(pair_register(half))
        } else {
            AllInstructions::LD16(pair_register(half), AllRegisters::U16)
        }
    } else if column == 2 {
        let cell = if half == 0 {
            AllRegisters::RBC
        } else if half == 1 {
            AllRegisters::RDE
        } else {
            AllRegisters::RHL
        };
        let (to, from) = if odd {
            (AllRegisters::A, cell)
        } else {
            (cell, AllRegisters::A)
        };
        if half == 2 {
            AllInstructions::LDI(to, from)
        } else if half == 3 {
            AllInstructions::LDD(to, from)
        } else {
            AllInstructions::LD(to, from)
        }
    } else if column == 3 {
        if odd {
            AllInstructions::DEC16(pair_register(half))
        } else {
            AllInstructions::INC16(pair_register(half))
        }
    } else if column == 4 {
        AllInstructions::INC(grid_register(row))
    } else if column == 5 {
        AllInstructions::DEC(grid_register(row))
    } else if column == 6 {
        AllInstructions::LD(grid_register(row), AllRegisters::U8)
    } else {
        if row == 0 {
            AllInstructions::RLCA
        } else if row == 1 {
            AllInstructions::RRCA
        } else if row == 2 {
            AllInstructions::RLA
        } else if row == 3 {
            AllInstructions::RRA
        } else if row == 4 {
            AllInstructions::DAA
        } else if row == 5 {
            AllInstructions::CPL
        } else if row == 6 {
            AllInstructions::SCF
        } else {
            AllInstructions::CCF
        }
    }
}

/// Block 3 of the unprefixed table (`0xC0` to `0xFF`).
pub open spec fn decode_block3(row: int, column: int) -> AllInstructions {
    let half = row / 2;
    let odd = row % 2 == 1;
    if column == 0 {
        if row < 4 {
            AllInstructions::RET(condition_of(row))
        } else if row == 4 {
            AllInstructions::LD(AllRegisters::RFFU8, AllRegisters::A)
        } else if row == 5 {
            AllInstructions::ADDSP
        } else if row == 6 {
            AllInstructions::LD(AllRegisters::A, AllRegisters::RFFU8)
        } else {
            AllInstructions::LDSP(AllRegisters::HL)
        }
    } else if column == 1 {
        if !odd {
            AllInstructions::POP(stack_register(half))
        } else if half == 0 {
            AllInstructions::RET(FlagChecks::FA)
        } else if half == 1 {
            AllInstructions::RETI(FlagChecks::FA)
        } else if half == 2 {
            AllInstructions::JP(FlagChecks::FA, AllRegisters::HL)
        } else {
            AllInstructions::LD16(AllRegisters::SP, AllRegisters::HL)
        }
    } else if column == 2 {
        if row < 4 {
            AllInstructions::JP(condition_of(row), AllRegisters::U16)
        } else if row == 4 {
            AllInstructions::LD(AllRegisters::RFFC, AllRegisters::A)
        } else if row == 5 {
            AllInstructions::LD(AllRegisters::RU16, AllRegisters::A)
        } else if row == 6 {
            AllInstructions::LD(AllRegisters::A, AllRegisters::RFFC)
        } else {
            AllInstructions::LD(AllRegisters::A, AllRegisters::RU16)
        }
    } else if column == 3 {
        if row == 0 {
            AllInstructions::JP(FlagChecks::FA, AllRegisters::U16)
        } else if row == 1 {
            // The prefix byte itself; the fetch never hands it to the decoder.
            AllInstructions::NOP
        } else if row == 6 {
            AllInstructions::DI
        } else if row == 7 {
            AllInstructions::EI
        } else {
            AllInstructions::EMPTY
        }
    } else if column == 4 {
        if row < 4 {
            AllInstructions::CALL(condition_of(row), AllRegisters::U16)
        } else {
            AllInstructions::EMPTY
        }
    } else if column == 5 {
        if !odd {
            AllInstructions::PUSH(stack_register(half))
        } else if half == 0 {
            AllInstructions::CALL(FlagChecks::FA, AllRegisters::U16)
        } else {
            AllInstructions::EMPTY
        }
    } else if column == 6 {
        accumulator_operation(row, AllRegisters::U8)
    } else {
        AllInstructions::RST(restart_of(row))
    }
}

impl AllInstructions {
    /// The instruction that an unprefixed opcode byte stands for.
    pub open spec fn spec_from_byte(byte: u8) -> AllInstructions {
        let block = byte as int / 64;
        let row = byte as int / 8 % 8;
        let column = byte as int % 8;
        if block == 0 {
            decode_block0(row, column)
        } else if block == 1 {
            if byte == 0x76 {
                AllInstructions::HALT
            } else {
                AllInstructions::LD(grid_register(row), grid_register(column))
            }
        } else if block == 2 {
            accumulator_operation(row, grid_register(column))
        } else {
            decode_block3(row, column)
        }
    }

    /// The instruction that an opcode byte stands for after the `0xCB` prefix.
    pub open spec fn spec_from_prefixed_byte(byte: u8) -> AllInstructions {
        let block = byte as int / 64;
        let row = byte as int / 8 % 8;
        let operand = grid_register(byte as int % 8);
        if block == 0 {
            shift_operation(row, operand)
        } else if block == 1 {
            AllInstructions::BIT(row as u8, operand)
        } else if block == 2 {
            AllInstructions::RES(row as u8, operand)
        } else {
            AllInstructions::SET(row as u8, operand)
        }
    }

    /// The instruction that `byte` stands for, prefixed or not.
    pub open spec fn spec_decode(byte: u8, prefixed: bool) -> AllInstructions {
        if prefixed {
            Self::spec_from_prefixed_byte(byte)
        } else {
            Self::spec_from_byte(byte)
        }
    }
}

/// How the masks and shifts of the decoder read as the fields of a byte.
pub proof fn lemma_opcode_fields(byte: u8)
    by (bit_vector)
    ensures
        byte & 0x7 == byte % 8,
        byte >> 3 == byte / 8,
{
}

impl AllInstructions {
    /// Decodes an opcode byte; `prefixed` says whether it followed `0xCB`.
    /// Every byte decodes to an instruction, and to a well-formed one.
    pub fn decode(byte: u8, prefixed: bool) -> (instruction: Option<AllInstructions>)
        ensures
            instruction == Some(Self::spec_decode(byte, prefixed)),
            Self::spec_decode(byte, prefixed).well_formed(),
    {
        if prefixed {
            AllInstructions::from_prefixed_byte(byte)
        } else {
            AllInstructions::from_byte(byte)
        }
    }

    /// Decodes an unprefixed opcode byte.
    pub fn from_byte(byte: u8) -> (instruction: Option<AllInstructions>)
        ensures
            instruction == Some(Self::spec_from_byte(byte)),
            Self::spec_from_byte(byte).well_formed(),
    {
        Some(match byte {
            0x00 => NOP,            0x01 => LD16(BC, U16),  0x02 => LD(RBC, A),     0x03 => INC16(BC),
            0x04 => INC(B),         0x05 => DEC(B),         0x06 => LD(B, U8),      0x07 => RLCA,
            0x08 => LD16(RU16, SP), 0x09 => ADD16(BC),      0x0A => LD(A, RBC),     0x0B => DEC16(BC),
            0x0C => INC(C),         0x0D => DEC(C),         0x0E => LD(C, U8),      0x0F => RRCA,
            0x10 => STOP,           0x11 => LD16(DE, U16),  0x12 => LD(RDE, A),     0x13 => INC16(DE),
            0x14 => INC(D),         0x15 => DEC(D),         0x16 => LD(D, U8),      0x17 => RLA,
            0x18 => JR(FA),         0x19 => ADD16(DE),      0x1A => LD(A, RDE),     0x1B => DEC16(DE),
            0x1C => INC(E),         0x1D => DEC(E),         0x1E => LD(E, U8),      0x1F => RRA,
            0x20 => JR(FNZ),        0x21 => LD16(HL, U16),  0x22 => LDI(RHL, A),    0x23 => INC16(HL),
            0x24 => INC(H),         0x25 => DEC(H),         0x26 => LD(H, U8),      0x27 => DAA,
            0x28 => JR(FZ),         0x29 => ADD16(HL),      0x2A => LDI(A, RHL),    0x2B => DEC16(HL),
            0x2C => INC(L),         0x2D => DEC(L),         0x2E => LD(L, U8),      0x2F => CPL,
            0x30 => JR(FNC),        0x31 => LD16(SP, U16),  0x32 => LDD(RHL, A),    0x33 => INC16(SP),
            0x34 => INC(RHL),       0x35 => DEC(RHL),       0x36 => LD(RHL, U8),    0x37 => SCF,
            0x38 => JR(FC),         0x39 => ADD16(SP),      0x3A => LDD(A, RHL),    0x3B => DEC16(SP),
            0x3C => INC(A),         0x3D => DEC(A),         0x3E => LD(A, U8),      0x3F => CCF,

            0x40..=0xBF => {
                let offset: u8 = byte - 0x40;
                proof {
                    lemma_opcode_fields(byte);
                    lemma_opcode_fields(offset);
                }
                let r = match byte & 0x7 {
                    0x0 => B, 0x1 => C, 0x2 => D,   0x3 => E,
                    0x4 => H, 0x5 => L, 0x6 => RHL, _   => A,
                };

                let op = match offset >> 0x3 {
                    0x0 => LD(B, r), 0x1 => LD(C, r), 0x2 => LD(D, r),   0x3 => LD(E, r),
                    0x4 => LD(H, r), 0x5 => LD(L, r), 0x6 => LD(RHL, r), 0x7 => LD(A, r),
                    0x8 => ADD(r),   0x9 => ADC(r),   0xA => SUB(r),     0xB => SBC(r),
                    0xC => AND(r),   0xD => XOR(r),   0xE => OR(r),      _   => CP(r),
                };

                if byte == 0x76 { HALT } else { op }
            }

            0xC0 => RET(FNZ),       0xC1 => POP(BC),        0xC2 => JP(FNZ, U16),   0xC3 => JP(FA, U16),
            0xC4 => CALL(FNZ, U16), 0xC5 => PUSH(BC),       0xC6 => ADD(U8),        0xC7 => RST(R00H),
            0xC8 => RET(FZ),        0xC9 => RET(FA),        0xCA => JP(FZ, U16),    0xCB => NOP,
            0xCC => CALL(FZ, U16),  0xCD => CALL(FA, U16),  0xCE => ADC(U8),        0xCF => RST(R08H),
            0xD0 => RET(FNC),       0xD1 => POP(DE),        0xD2 => JP(FNC, U16),   0xD3 => EMPTY,
            0xD4 => CALL(FNC, U16), 0xD5 => PUSH(DE),       0xD6 => SUB(U8),        0xD7 => RST(R10H),
            0xD8 => RET(FC),        0xD9 => RETI(FA),       0xDA => JP(FC, U16),    0xDB => EMPTY,
            0xDC => CALL(FC, U16),  0xDD => EMPTY,          0xDE => SBC(U8),        0xDF => RST(R18H),
            0xE0 => LD(RFFU8, A),   0xE1 => POP(HL),        0xE2 => LD(RFFC, A),    0xE3 => EMPTY,
            0xE4 => EMPTY,          0xE5 => PUSH(HL),       0xE6 => AND(U8),        0xE7 => RST(R20H),
            0xE8 => ADDSP,          0xE9 => JP(FA, HL),     0xEA => LD(RU16, A),    0xEB => EMPTY,
            0xEC => EMPTY,          0xED => EMPTY,          0xEE => XOR(U8),        0xEF => RST(R28H),
            0xF0 => LD(A, RFFU8),   0xF1 => POP(AF),        0xF2 => LD(A, RFFC),    0xF3 => DI,
            0xF4 => EMPTY,          0xF5 => PUSH(AF),       0xF6 => OR(U8),         0xF7 => RST(R30H),
            0xF8 => LDSP(HL),       0xF9 => LD16(SP, HL),   0xFA => LD(A, RU16),    0xFB => EI,
            0xFC => EMPTY,          0xFD => EMPTY,          0xFE => CP(U8),         0xFF => RST(R38H),
        })
    }

    /// Decodes the opcode byte that followed the `0xCB` prefix.
    pub fn from_prefixed_byte(byte: u8) -> (instruction: Option<AllInstructions>)
        ensures
            instruction == Some(Self::spec_from_prefixed_byte(byte)),
            Self::spec_from_prefixed_byte(byte).well_formed(),
    {
        proof {
            lemma_opcode_fields(byte);
        }
        let r = match byte & 0x7 {
            0x0 => B, 0x1 => C, 0x2 => D,   0x3 => E,
            0x4 => H, 0x5 => L, 0x6 => RHL, _   => A,
        };

        let op = match byte >> 0x3 {
            0x0 => RLC(r), 0x1 => RRC(r), 0x2 => RL(r),   0x3 => RR(r),
            0x4 => SLA(r), 0x5 => SRA(r), 0x6 => SWAP(r), 0x7 => SRL(r),

            0x8 => BIT(0, r), 0x9 => BIT(1, r), 0xA => BIT(2, r), 0xB => BIT(3, r),
            0xC => BIT(4, r), 0xD => BIT(5, r), 0xE => BIT(6, r), 0xF => BIT(7, r),

            0x10 => RES(0, r), 0x11 => RES(1, r), 0x12 => RES(2, r), 0x13 => RES(3, r),
            0x14 => RES(4, r), 0x15 => RES(5, r), 0x16 => RES(6, r), 0x17 => RES(7, r),

            0x18 => SET(0, r), 0x19 => SET(1, r), 0x1A => SET(2, r), 0x1B => SET(3, r),
            0x1C => SET(4, r), 0x1D => SET(5, r), 0x1E => SET(6, r), _    => SET(7, r),
        };

        Some(op)
    }
}

/// Every byte decodes, with the prefix or without it, to a well-formed
/// instruction: there is no opcode that the decoder leaves undefined.
pub proof fn lemma_decode_total(byte: u8, prefixed: bool)
    ensures
        AllInstructions::spec_decode(byte, prefixed).well_formed(),
{
    let row = byte as int / 8 % 8;
    let column = byte as int % 8;
    lemma_operands_fit(row);
    lemma_operands_fit(column);
    lemma_operands_fit(row / 2);
    if !prefixed {
        lemma_blocks_well_formed(row, column);
    }
}

/// The operands that the index tables select fit the operations they are
/// selected for.
proof fn lemma_operands_fit(index: int)
    ensures
        grid_register(index).is_byte_target(),
        grid_register(index).is_byte_source(),
        pair_register(index).is_word_register(),
        stack_register(index).is_word_register(),
        forall|operand: AllRegisters|
            operand.is_byte_source() ==> (#[trigger] accumulator_operation(
                index,
                operand,
            )).well_formed(),
        forall|operand: AllRegisters|
            operand.is_byte_target() ==> (#[trigger] shift_operation(
                index,
                operand,
            )).well_formed(),
{
}

/// Blocks 0 and 3 of the unprefixed table hold well-formed instructions.
proof fn lemma_blocks_well_formed(row: int, column: int)
    requires
        0 <= row < 8,
        0 <= column < 8,
    ensures
        decode_block0(row, column).well_formed(),
        decode_block3(row, column).well_formed(),
{
    lemma_operands_fit(row);
    lemma_operands_fit(row / 2);
}

/// The regular grid of the unprefixed table: from `0x40` to `0x7F` a load
/// between the operands that the row and the column select, but for `0x76`,
/// which halts; from `0x80` to `0xBF` the accumulator operation of the row
/// on the operand of the column.
pub proof fn lemma_regular_grid(byte: u8)
    requires
        0x40 <= byte <= 0xBF,
    ensures
        byte == 0x76 ==> AllInstructions::spec_from_byte(byte) == AllInstructions::HALT,
        byte < 0x80 && byte != 0x76 ==> AllInstructions::spec_from_byte(byte) == AllInstructions::LD(
            grid_register((byte - 0x40) / 8),
            grid_register(byte as int % 8),
        ),
        byte >= 0x80 ==> AllInstructions::spec_from_byte(byte) == accumulator_operation(
            (byte - 0x80) / 8,
            grid_register(byte as int % 8),
        ),
{
}

} // verus!
