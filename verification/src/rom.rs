//! The cartridge: its bytes and the bank that is switched into the upper
//! half of the cartridge's address range.

use vstd::prelude::*;

verus! {

/// A cartridge image with an MBC1-style single bank register.
pub struct ROM {
    pub bytes: Vec<u8>,
    pub bank: u8,
}

/// The byte of `bytes` at `index`, or `0xFF` where the image has none.
pub open spec fn image_byte(bytes: Seq<u8>, index: int) -> u8 {
    if 0 <= index < bytes.len() {
        bytes[index]
    } else {
        0xFF
    }
}

/// What a cartridge with the image `bytes` and the bank register `bank`
/// answers at `addr`: bank 0 below `0x4000`, the switched bank from there
/// up to `0x7FFF` at offset `bank * 0x4000 + (addr - 0x4000)`, and `0xFF`
/// outside the cartridge's range or beyond the end of the image.
pub open spec fn banked_byte(bytes: Seq<u8>, bank: u8, addr: u16) -> u8 {
    if addr < 0x4000 {
        image_byte(bytes, addr as int)
    } else if addr < 0x8000 {
        image_byte(bytes, bank as int * 0x4000 + (addr as int - 0x4000))
    } else {
        0xFF
    }
}

impl ROM {
    /// A cartridge over `bytes`, with bank 1 switched in.
    pub fn new(bytes: Vec<u8>) -> (rom: Self)
        ensures
            rom.bytes@ == bytes@,
            rom.bank == 1,
    {
        ROM { bytes, bank: 1 }
    }

    pub open spec fn spec_read_byte(&self, addr: u16) -> u8 {
        banked_byte(self.bytes@, self.bank, addr)
    }

    /// Reads the cartridge at a bus address.
    pub fn read_byte(&self, addr: u16) -> (byte: u8)
        ensures
            byte == self.spec_read_byte(addr),
    {
        if addr < 0x4000 {
            self.byte_at(addr as usize)
        } else if addr < 0x8000 {
            self.byte_at(self.bank as usize * 0x4000 + (addr - 0x4000) as usize)
        } else {
            0xFF
        }
    }

    fn byte_at(&self, index: usize) -> (byte: u8)
        ensures
            byte == image_byte(self.bytes@, index as int),
    {
        if index < self.bytes.len() {
            self.bytes[index]
        } else {
            0xFF
        }
    }

    /// Selects the bank that answers from `0x4000` to `0x7FFF`.
    pub fn switch_bank(&mut self, bank: u8)
        ensures
            final(self).bank == bank,
            final(self).bytes@ == old(self).bytes@,
    {
        self.bank = bank;
    }
}

} // verus!
