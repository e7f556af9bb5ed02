//! The machine as a whole: the processor, the timer, the picture unit and
//! the joypad, the bus they share, and the order in which one iteration of
//! the driver's loop runs them.

use vstd::prelude::*;
use crate::cpu::{lemma_step_cost, CPU, INTERRUPT_CYCLES};
use crate::input::{buttons_after, joypad_byte, KeyboardInput, IPU, JOYPAD_ADDRESS};
use crate::memory::{BusState, MemoryBus};
use crate::ppu::{advance_by, LINE_CYCLES, PPU};
use crate::registers::{FlagsRegister, Registers};
use crate::rom::ROM;
use crate::timer::Timer;

verus! {

/// T-cycles that pass in a step during which the processor is halted: one
/// machine cycle, so that the timer and the picture unit keep running and
/// can wake it.
pub const HALT_CYCLES: u16 = 4;

/// The machine. The bus is owned here and lent to each component in turn.
pub struct Emulator {
    pub cpu: CPU,
    pub ppu: PPU,
    pub ipu: IPU,
    pub tmr: Timer,
    pub bus: MemoryBus,
}

/// The mathematical state of the machine.
pub struct EmulatorState {
    pub cpu: CPU,
    pub tmr: Timer,
    /// T-cycles into the current scanline.
    pub line_cycles: u16,
    /// The colours of the frame, row by row.
    pub buffer: Seq<u32>,
    /// The buttons held.
    pub buttons: Seq<bool>,
    pub bus: BusState,
}

impl View for Emulator {
    type V = EmulatorState;

    open spec fn view(&self) -> EmulatorState {
        EmulatorState {
            cpu: self.cpu,
            tmr: self.tmr,
            line_cycles: self.ppu.cycle_count,
            buffer: self.ppu.buffer@,
            buttons: self.ipu.buttons@,
            bus: self.bus@,
        }
    }
}

impl EmulatorState {
    /// The machine after `cycles` T-cycles have passed for the timer and
    /// then for the picture unit.
    pub open spec fn pass(self, cycles: u16) -> EmulatorState {
        let (tmr, timed) = self.tmr.spec_step(self.bus, cycles);
        let (buffer, bus) = advance_by(
            self.buffer,
            timed,
            ((self.line_cycles + cycles) / (LINE_CYCLES as int)) as nat,
        );
        EmulatorState {
            tmr,
            line_cycles: ((self.line_cycles + cycles) % (LINE_CYCLES as int)) as u16,
            buffer,
            bus,
            ..self
        }
    }

    /// The machine after a report from the host, `None` for one that is no
    /// keyboard input: the buttons take the report, and the joypad register
    /// shows them.
    pub open spec fn poll(self, event: Option<KeyboardInput>) -> EmulatorState {
        let buttons = buttons_after(self.buttons, event);
        EmulatorState {
            buttons,
            bus: self.bus.write(
                JOYPAD_ADDRESS,
                joypad_byte(self.bus.read(JOYPAD_ADDRESS), buttons),
            ),
            ..self
        }
    }

    /// The machine after one iteration, and the T-cycles that passed.
    ///
    /// The processor steps; the cycles of the step, or `HALT_CYCLES` if
    /// the processor was halted, pass for the timer and the picture unit;
    /// then interrupts are checked, and the cycles of a dispatch, if there
    /// was one, pass as well.
    pub open spec fn step(self) -> (EmulatorState, u16) {
        let (stepped, fetched, cycles) = self.cpu.spec_step(self.bus);
        let elapsed = if cycles == 0 {
            HALT_CYCLES
        } else {
            cycles
        };
        let passed = (EmulatorState { cpu: stepped, bus: fetched, ..self }).pass(elapsed);
        let (cpu, dispatched, extra) = passed.cpu.spec_check_for_interrupts(passed.bus);
        let checked = EmulatorState { cpu, bus: dispatched, ..passed };
        if extra == 0 {
            (checked, elapsed)
        } else {
            (checked.pass(extra), (elapsed + extra) as u16)
        }
    }
}

impl Emulator {
    /// A machine over the cartridge `rom`: every register and every byte of
    /// storage zero, no button held, the processor running.
    pub fn new(rom: ROM) -> (emulator: Self)
        ensures
            emulator@.cpu == (CPU {
                registers: Registers {
                    a: 0,
                    b: 0,
                    c: 0,
                    d: 0,
                    e: 0,
                    f: FlagsRegister {
                        zero: false,
                        subtract: false,
                        half_carry: false,
                        carry: false,
                    },
                    h: 0,
                    l: 0,
                },
                halted: false,
            }),
            emulator@.tmr == (Timer { div_counter: 0 }),
            emulator@.line_cycles == 0,
            emulator@.buffer == Seq::new(23040, |i: int| 0u32),
            emulator@.buttons == Seq::new(8, |i: int| false),
            emulator@.bus == (BusState {
                image: rom.bytes@,
                bank: rom.bank,
                memory: Seq::new(0x10000, |i: int| 0u8),
                pc: 0,
                sp: 0,
                ime: false,
                inf: 0,
                div_reset: false,
            }),
    {
        Emulator {
            cpu: CPU::new(),
            ppu: PPU::new(),
            ipu: IPU::new(),
            tmr: Timer::new(),
            bus: MemoryBus::new(rom),
        }
    }

    /// Lets `cycles` T-cycles pass for the timer and the picture unit.
    pub fn pass(&mut self, cycles: u16)
        ensures
            final(self)@ == old(self)@.pass(cycles),
    {
        self.tmr.step(&mut self.bus, cycles);
        self.ppu.update(&mut self.bus, cycles);
    }

    /// Runs one iteration and returns the T-cycles that passed.
    pub fn step(&mut self) -> (cycles: u16)
        ensures
            (final(self)@, cycles) == old(self)@.step(),
    {
        let cycles = self.cpu.step(&mut self.bus);
        let elapsed = if cycles == 0 {
            HALT_CYCLES
        } else {
            cycles
        };
        self.pass(elapsed);
        let extra = self.cpu.check_for_interrupts(&mut self.bus);
        if extra == 0 {
            elapsed
        } else {
            self.pass(extra);
            elapsed + extra
        }
    }

    /// Runs one turn of the driver's loop: one iteration of the machine,
    /// then the report that the host has for this turn. Returns the
    /// T-cycles that passed.
    pub fn turn(&mut self, event: Option<KeyboardInput>) -> (cycles: u16)
        ensures
            final(self)@ == old(self)@.step().0.poll(event),
            cycles == old(self)@.step().1,
    {
        let cycles = self.step();
        self.ipu.poll(&mut self.bus, event);
        cycles
    }
}

/// Time passes in every iteration, whether the processor runs or is
/// halted: at least `HALT_CYCLES` and at most the cost of the longest
/// instruction and a dispatch.
pub proof fn lemma_time_passes(emulator: Emulator)
    ensures
        HALT_CYCLES <= emulator@.step().1 <= 24 + INTERRUPT_CYCLES,
{
    lemma_step_cost(emulator.cpu, emulator.bus);
}

} // verus!
