//! The memory bus: 65536 byte locations dispatched by region, together with
//! the program counter, the stack pointer and the interrupt state.

use vstd::prelude::*;
use crate::rom::{banked_byte, ROM};

verus! {

/// First address of the echo of work RAM.
pub const ERAM_START: u16 = 0xE000;

/// Last address of the echo of work RAM.
pub const ERAM_END: u16 = 0xFDFF;

/// Distance from a work-RAM address to its echo.
pub const ECHO_OFFSET: u16 = 0x2000;

/// First address above the cartridge's range.
pub const VRAM_START: u16 = 0x8000;

/// First address of the unusable range.
pub const UNUSED_START: u16 = 0xFEA0;

/// Last address of the unusable range.
pub const UNUSED_END: u16 = 0xFEFF;

/// Address of the visible divider register.
pub const DIV_ADDRESS: u16 = 0xFF04;

/// Address of the interrupt-flag byte.
pub const IF_ADDRESS: u16 = 0xFF0F;

/// Address of the interrupt-enable byte.
pub const IE_ADDRESS: u16 = 0xFFFF;

/// The bus and the cursors it owns.
pub struct MemoryBus {
    /// Backing store for everything above the cartridge's range. The echo of
    /// work RAM has no cells of its own: it is served by the work-RAM cells.
    pub memory: [u8; 0x10000],
    pub pc: u16,
    pub sp: u16,
    /// Interrupt master enable.
    pub ime: bool,
    /// The interrupt-flag byte, addressable at `0xFF0F`.
    pub inf: u8,
    /// Set when software writes the divider register; the timer clears it.
    pub div_reset: bool,
    pub rom: ROM,
}

/// The mathematical state of a bus.
pub struct BusState {
    pub image: Seq<u8>,
    pub bank: u8,
    pub memory: Seq<u8>,
    pub pc: u16,
    pub sp: u16,
    pub ime: bool,
    pub inf: u8,
    pub div_reset: bool,
}

/// `x` reduced to 16 bits.
pub open spec fn wrap16(x: int) -> u16 {
    (x % 0x10000) as u16
}

/// `x` reduced to 8 bits.
pub open spec fn wrap8(x: int) -> u8 {
    (x % 0x100) as u8
}

/// What wrapping does to a value that is at most one width out of range.
pub proof fn lemma_wrap(value: int)
    ensures
        0 <= value < 0x100 ==> wrap8(value) == value,
        0x100 <= value < 0x200 ==> wrap8(value) == value - 0x100,
        -0x100 <= value < 0 ==> wrap8(value) == value + 0x100,
        0 <= value < 0x10000 ==> wrap16(value) == value,
        0x10000 <= value < 0x20000 ==> wrap16(value) == value - 0x10000,
        -0x10000 <= value < 0 ==> wrap16(value) == value + 0x10000,
{
    if 0 <= value < 0x100 {
        vstd::arithmetic::div_mod::lemma_fundamental_div_mod_converse(value, 0x100, 0, value);
    }
    if 0x100 <= value < 0x200 {
        vstd::arithmetic::div_mod::lemma_fundamental_div_mod_converse(
            value,
            0x100,
            1,
            value - 0x100,
        );
    }
    if -0x100 <= value < 0 {
        vstd::arithmetic::div_mod::lemma_fundamental_div_mod_converse(
            value,
            0x100,
            -1,
            value + 0x100,
        );
    }
    if 0 <= value < 0x10000 {
        vstd::arithmetic::div_mod::lemma_fundamental_div_mod_converse(value, 0x10000, 0, value);
    }
    if 0x10000 <= value < 0x20000 {
        vstd::arithmetic::div_mod::lemma_fundamental_div_mod_converse(
            value,
            0x10000,
            1,
            value - 0x10000,
        );
    }
    if -0x10000 <= value < 0 {
        vstd::arithmetic::div_mod::lemma_fundamental_div_mod_converse(
            value,
            0x10000,
            -1,
            value + 0x10000,
        );
    }
}

/// Whether `addr` belongs to the cartridge.
pub open spec fn in_rom(addr: u16) -> bool {
    addr < VRAM_START
}

/// Whether `addr` lies in the unusable range.
pub open spec fn in_unused(addr: u16) -> bool {
    UNUSED_START <= addr <= UNUSED_END
}

/// Whether `addr` lies in the echo of work RAM.
pub open spec fn in_echo(addr: u16) -> bool {
    ERAM_START <= addr <= ERAM_END
}

/// The cell of the backing store that serves `addr`: an echo address is
/// served by the work-RAM cell `0x2000` below it, any other by its own.
pub open spec fn cell_of(addr: u16) -> int {
    if in_echo(addr) {
        addr as int - ECHO_OFFSET as int
    } else {
        addr as int
    }
}

/// Whether a byte written to `addr` is stored and read back unchanged.
pub open spec fn is_storage(addr: u16) -> bool {
    !in_rom(addr) && !in_unused(addr) && addr != DIV_ADDRESS
}

impl BusState {
    /// Holds of the state of every bus.
    pub open spec fn wf(self) -> bool {
        self.memory.len() == 0x10000
    }

    /// The byte that a read of `addr` returns.
    pub open spec fn read(self, addr: u16) -> u8 {
        if in_rom(addr) {
            banked_byte(self.image, self.bank, addr)
        } else if in_unused(addr) {
            0
        } else if addr == IF_ADDRESS {
            self.inf
        } else {
            self.memory[cell_of(addr)]
        }
    }

    /// The state after a write of `val` to `addr`. The cartridge and the
    /// unusable range ignore writes; a write to the divider register stores
    /// zero and raises `div_reset`.
    pub open spec fn write(self, addr: u16, val: u8) -> BusState {
        if in_rom(addr) || in_unused(addr) {
            self
        } else if addr == IF_ADDRESS {
            BusState { inf: val, ..self }
        } else if addr == DIV_ADDRESS {
            BusState { memory: self.memory.update(DIV_ADDRESS as int, 0), div_reset: true, ..self }
        } else {
            BusState { memory: self.memory.update(cell_of(addr), val), ..self }
        }
    }

    /// The byte at `pc`, and the state with `pc` moved past it.
    pub open spec fn fetch(self) -> (u8, BusState) {
        (self.read(self.pc), BusState { pc: wrap16(self.pc + 1), ..self })
    }

    /// The little-endian word at `pc`, and the state with `pc` moved past it.
    pub open spec fn fetch16(self) -> (u16, BusState) {
        let (lo, s1) = self.fetch();
        let (hi, s2) = s1.fetch();
        (crate::registers::pair_of(hi, lo), s2)
    }

    /// The state after a jump to `target` that is taken iff `condition`.
    pub open spec fn jump(self, target: u16, condition: bool) -> BusState {
        if condition {
            BusState { pc: target, ..self }
        } else {
            self
        }
    }

    /// The state after pushing `val`: the high byte goes to `sp - 1`, the
    /// low byte to `sp - 2`, and `sp` ends two below where it was.
    pub open spec fn push(self, val: u16) -> BusState {
        let s1 = BusState { sp: wrap16(self.sp - 1), ..self };
        let s2 = s1.write(s1.sp, crate::registers::high_byte(val));
        let s3 = BusState { sp: wrap16(s2.sp - 1), ..s2 };
        s3.write(s3.sp, crate::registers::low_byte(val))
    }

    /// The word popped: low byte from `sp`, high byte from `sp + 1`; and the
    /// state with `sp` two above where it was.
    pub open spec fn pop(self) -> (u16, BusState) {
        let lo = self.read(self.sp);
        let hi = self.read(wrap16(self.sp + 1));
        (crate::registers::pair_of(hi, lo), BusState { sp: wrap16(self.sp + 2), ..self })
    }
}

impl View for MemoryBus {
    type V = BusState;

    open spec fn view(&self) -> BusState {
        BusState {
            image: self.rom.bytes@,
            bank: self.rom.bank,
            memory: self.memory@,
            pc: self.pc,
            sp: self.sp,
            ime: self.ime,
            inf: self.inf,
            div_reset: self.div_reset,
        }
    }
}

impl MemoryBus {
    /// A bus over the cartridge `rom`: all storage zero, both cursors at
    /// zero, interrupts disabled and none requested.
    pub fn new(rom: ROM) -> (bus: Self)
        ensures
            bus@ == (BusState {
                image: rom.bytes@,
                bank: rom.bank,
                memory: Seq::new(0x10000, |i: int| 0u8),
                pc: 0,
                sp: 0,
                ime: false,
                inf: 0,
                div_reset: false,
            }),
    {
        let bus = MemoryBus {
            memory: [0u8; 0x10000],
            pc: 0,
            sp: 0,
            ime: false,
            inf: 0,
            div_reset: false,
            rom,
        };
        assert(bus.memory@ =~= Seq::new(0x10000, |i: int| 0u8));
        bus
    }

    /// Reads the byte at `addr`.
    pub fn read_byte(&self, addr: u16) -> (byte: u8)
        ensures
            byte == self@.read(addr),
    {
        if addr < VRAM_START {
            self.rom.read_byte(addr)
        } else if UNUSED_START <= addr && addr <= UNUSED_END {
            0
        } else if addr == IF_ADDRESS {
            self.inf
        } else if ERAM_START <= addr && addr <= ERAM_END {
            self.memory[(addr - ECHO_OFFSET) as usize]
        } else {
            self.memory[addr as usize]
        }
    }

    /// Writes `val` to `addr`.
    pub fn write_byte(&mut self, addr: u16, val: u8)
        ensures
            final(self)@ == old(self)@.write(addr, val),
    {
        if addr < VRAM_START || (UNUSED_START <= addr && addr <= UNUSED_END) {
        } else if addr == IF_ADDRESS {
            self.inf = val;
        } else if addr == DIV_ADDRESS {
            self.memory[DIV_ADDRESS as usize] = 0;
            self.div_reset = true;
        } else if ERAM_START <= addr && addr <= ERAM_END {
            self.memory[(addr - ECHO_OFFSET) as usize] = val;
        } else {
            self.memory[addr as usize] = val;
        }
    }

    /// Returns the byte at `pc` and moves `pc` past it, wrapping at 16 bits.
    pub fn read_increment(&mut self) -> (byte: u8)
        ensures
            (byte, final(self)@) == old(self)@.fetch(),
    {
        let data = self.read_byte(self.pc);
        proof {
            lemma_wrap(self.pc + 1);
        }
        self.pc = self.pc.wrapping_add(1);
        data
    }

    /// Sets `pc` to `target` iff `condition` holds.
    pub fn jump(&mut self, target: u16, condition: bool)
        ensures
            final(self)@ == old(self)@.jump(target, condition),
    {
        if condition {
            self.pc = target;
        }
    }

    /// Pushes `val` onto the stack, high byte first.
    pub fn push(&mut self, val: u16)
        ensures
            final(self)@ == old(self)@.push(val),
    {
        proof {
            crate::registers::lemma_byte_pair_bits(0, 0, val);
            lemma_wrap(self.sp - 1);
            lemma_wrap(self.sp - 2);
            lemma_wrap(wrap16(self.sp - 1) - 1);
        }
        self.sp = self.sp.wrapping_sub(1);
        self.write_byte(self.sp, (val >> 8) as u8);
        self.sp = self.sp.wrapping_sub(1);
        self.write_byte(self.sp, (val & 0xFF) as u8);
    }

    /// Pops a word off the stack, low byte first.
    pub fn pop(&mut self) -> (val: u16)
        ensures
            (val, final(self)@) == old(self)@.pop(),
    {
        let lsb = self.read_byte(self.sp);
        proof {
            lemma_wrap(self.sp + 1);
            lemma_wrap(self.sp + 2);
            lemma_wrap(wrap16(self.sp + 1) + 1);
        }
        self.sp = self.sp.wrapping_add(1);
        let msb = self.read_byte(self.sp);
        self.sp = self.sp.wrapping_add(1);
        proof {
            crate::registers::lemma_byte_pair_bits(msb, lsb, 0);
        }
        (msb as u16) << 8 | (lsb as u16)
    }
}

/// A byte written to a storage address is read back from it.
pub proof fn lemma_write_read(bus: MemoryBus, addr: u16, val: u8)
    requires
        is_storage(addr),
    ensures
        bus@.write(addr, val).read(addr) == val,
{
}

/// The cartridge and the unusable range ignore writes.
pub proof fn lemma_ignored_write(bus: MemoryBus, addr: u16, val: u8)
    requires
        in_rom(addr) || in_unused(addr),
    ensures
        bus@.write(addr, val) == bus@,
{
}

/// A write changes what is read at the address written and, in work RAM
/// and its echo, at the address that shares its cell; it changes nothing
/// that is read anywhere else.
pub proof fn lemma_write_elsewhere(bus: MemoryBus, addr: u16, val: u8, other: u16)
    requires
        cell_of(other) != cell_of(addr),
    ensures
        bus@.write(addr, val).read(other) == bus@.read(other),
{
}

/// A byte written to work RAM is read at its echo, `0x2000` above, and a
/// byte written to the echo is read in work RAM.
pub proof fn lemma_echo(bus: MemoryBus, addr: u16, val: u8)
    requires
        0xC000 <= addr <= 0xDDFF,
    ensures
        bus@.write(addr, val).read(addr) == val,
        bus@.write(addr, val).read((addr + ECHO_OFFSET) as u16) == val,
        bus@.write((addr + ECHO_OFFSET) as u16, val).read(addr) == val,
{
}

/// A word pushed is the word popped, and the pop leaves the stack pointer
/// where it was before the push, provided the two bytes below the stack
/// pointer are storage.
pub proof fn lemma_push_pop(bus: MemoryBus, val: u16)
    requires
        is_storage(wrap16(bus.sp - 1)),
        is_storage(wrap16(bus.sp - 2)),
    ensures
        bus@.push(val).pop().0 == val,
        bus@.push(val).pop().1.sp == bus.sp,
        bus@.push(val).sp == wrap16(bus.sp - 2),
{
    let s1 = BusState { sp: wrap16(bus.sp - 1), ..bus@ };
    let s2 = s1.write(s1.sp, crate::registers::high_byte(val));
    let s3 = BusState { sp: wrap16(s2.sp - 1), ..s2 };
    let s4 = s3.write(s3.sp, crate::registers::low_byte(val));
    assert(s4 == bus@.push(val));
    assert(s4.read(s4.sp) == crate::registers::low_byte(val));
    assert(wrap16(s4.sp + 1) == s1.sp);
    assert(s2.read(s1.sp) == crate::registers::high_byte(val));
    assert(s4.read(s1.sp) == crate::registers::high_byte(val));
}

/// A fetch moves `pc` by one and changes nothing else; a jump that is not
/// taken changes nothing at all.
pub proof fn lemma_cursor(bus: MemoryBus, target: u16)
    ensures
        bus@.fetch().1 == (BusState { pc: wrap16(bus.pc + 1), ..bus@ }),
        bus@.fetch().0 == bus@.read(bus.pc),
        bus@.jump(target, false) == bus@,
        bus@.jump(target, true).pc == target,
{
}

} // verus!
