//! The timer: a free-running divider driven by elapsed T-cycles, and the
//! counter that ticks off it at the rate the control register selects.

use vstd::prelude::*;
use crate::alu::{lemma_bit_weights, put_bit, set_bit};
use crate::memory::{wrap16, BusState, MemoryBus, DIV_ADDRESS};
use crate::registers::{high_byte, lemma_byte_pair_bits};

verus! {

/// The four registers of the timer on the bus.
#[derive(Clone, Copy, Debug, PartialEq, Eq, Structural)]
pub enum TimerPointers {
    Div,
    Tima,
    Tma,
    Tac,
}

/// Address of the counter register.
pub const TIMA_ADDRESS: u16 = 0xFF05;

/// Address of the register that the counter reloads from.
pub const TMA_ADDRESS: u16 = 0xFF06;

/// Address of the control register.
pub const TAC_ADDRESS: u16 = 0xFF07;

/// Position of the timer's bit in the interrupt-flag byte.
pub const TIMER_BIT: u8 = 2;

impl TimerPointers {
    pub open spec fn spec_address(self) -> u16 {
        match self {
            TimerPointers::Div => DIV_ADDRESS,
            TimerPointers::Tima => TIMA_ADDRESS,
            TimerPointers::Tma => TMA_ADDRESS,
            TimerPointers::Tac => TAC_ADDRESS,
        }
    }

    /// The bus address of the register.
    pub fn address(self) -> (addr: u16)
        ensures
            addr == self.spec_address(),
    {
        match self {
            TimerPointers::Div => DIV_ADDRESS,
            TimerPointers::Tima => TIMA_ADDRESS,
            TimerPointers::Tma => TMA_ADDRESS,
            TimerPointers::Tac => TAC_ADDRESS,
        }
    }
}

/// The timer's own state: the divider, of which the bus shows the high byte.
#[derive(Clone, Copy, Debug, PartialEq, Eq, Structural)]
pub struct Timer {
    pub div_counter: u16,
}

/// Whether the control register enables the counter: its bit 2.
pub open spec fn counter_enabled(tac: u8) -> bool {
    tac as int / 4 % 2 == 1
}

/// T-cycles per tick of the counter, selected by the low two bits of the
/// control register.
pub open spec fn threshold(tac: u8) -> int {
    let select = tac as int % 4;
    if select == 0 {
        1024
    } else if select == 1 {
        16
    } else if select == 2 {
        64
    } else {
        256
    }
}

/// How many multiples of the threshold the divider crosses when it
/// advances from `counter` by `cycles`; none while the counter is disabled.
pub open spec fn ticks(counter: u16, cycles: u16, tac: u8) -> nat {
    if counter_enabled(tac) {
        ((counter as int % threshold(tac) + cycles as int) / threshold(tac)) as nat
    } else {
        0
    }
}

/// The counter after one tick: it reloads from `tma` when it was `0xFF`.
pub open spec fn tick(tima: u8, tma: u8) -> u8 {
    if tima == 0xFF {
        tma
    } else {
        (tima + 1) as u8
    }
}

/// The counter after `n` ticks.
pub open spec fn tima_after(tima: u8, tma: u8, n: nat) -> u8
    decreases n,
{
    if n == 0 {
        tima
    } else {
        tima_after(tick(tima, tma), tma, (n - 1) as nat)
    }
}

/// Whether the counter overflows within `n` ticks.
pub open spec fn overflows(tima: u8, tma: u8, n: nat) -> bool
    decreases n,
{
    if n == 0 {
        false
    } else {
        tima == 0xFF || overflows(tick(tima, tma), tma, (n - 1) as nat)
    }
}

impl Timer {
    /// The timer and the bus after `cycles` T-cycles have elapsed.
    ///
    /// A write to the divider register since the last step restarts the
    /// divider from zero. The divider then advances by `cycles`, wrapping
    /// at 16 bits, and its high byte is shown in the divider register. The
    /// counter ticks once for every multiple of the threshold that the
    /// divider crosses; an overflow of the counter requests the timer
    /// interrupt.
    pub open spec fn spec_step(self, bus: BusState, cycles: u16) -> (Timer, BusState) {
        let start: u16 = if bus.div_reset {
            0
        } else {
            self.div_counter
        };
        let counter = wrap16(start + cycles);
        let tima = bus.read(TIMA_ADDRESS);
        let tma = bus.read(TMA_ADDRESS);
        let n = ticks(start, cycles, bus.read(TAC_ADDRESS));
        let counted = bus.write(TIMA_ADDRESS, tima_after(tima, tma, n));
        (
            Timer { div_counter: counter },
            BusState {
                memory: counted.memory.update(DIV_ADDRESS as int, high_byte(counter)),
                inf: if overflows(tima, tma, n) {
                    set_bit(bus.inf, TIMER_BIT)
                } else {
                    bus.inf
                },
                div_reset: false,
                ..counted
            },
        )
    }

    /// A timer whose divider starts at zero.
    pub fn new() -> (timer: Self)
        ensures
            timer.div_counter == 0,
    {
        Timer { div_counter: 0x0 }
    }

    /// Advances the timer by `cycles` T-cycles.
    pub fn step(&mut self, bus: &mut MemoryBus, cycles: u16)
        ensures
            (*final(self), final(bus)@) == old(self).spec_step(old(bus)@, cycles),
    {
        let start: u16 = if bus.div_reset {
            0
        } else {
            self.div_counter
        };
        bus.div_reset = false;
        self.div_counter = start.wrapping_add(cycles);

        let tac = Self::read_byte(bus, TimerPointers::Tac);
        let tima = Self::read_byte(bus, TimerPointers::Tima);
        let tma = Self::read_byte(bus, TimerPointers::Tma);
        proof {
            lemma_bit_weights(tac);
            lemma_control_bits(tac);
        }
        let mut count: u32 = 0;
        if tac & 0x04 != 0 {
            let period: u32 = match tac & 0x3 {
                0b00 => 0x400,
                0b01 => 0x010,
                0b10 => 0x040,
                _ => 0x100,
            };
            count = (start as u32 % period + cycles as u32) / period;
        }
        assert(count == ticks(start, cycles, tac));

        let mut current = tima;
        let mut overflowed = false;
        let mut done: u32 = 0;
        while done < count
            invariant
                done <= count,
                tima_after(current, tma, (count - done) as nat) == tima_after(
                    tima,
                    tma,
                    count as nat,
                ),
                (overflowed || overflows(current, tma, (count - done) as nat)) == overflows(
                    tima,
                    tma,
                    count as nat,
                ),
            decreases count - done,
        {
            if current == 0xFF {
                current = tma;
                overflowed = true;
            } else {
                current = current + 1;
            }
            done = done + 1;
        }
        Self::write_byte(bus, TimerPointers::Tima, current);
        if overflowed {
            Self::request_interrupt(bus);
        }
        proof {
            lemma_byte_pair_bits(0, 0, self.div_counter);
        }
        bus.memory[DIV_ADDRESS as usize] = (self.div_counter >> 8) as u8;
    }

    /// Requests the timer interrupt.
    pub fn request_interrupt(bus: &mut MemoryBus)
        ensures
            final(bus)@ == (BusState { inf: set_bit(old(bus).inf, TIMER_BIT), ..old(bus)@ }),
    {
        bus.inf = put_bit(bus.inf, TIMER_BIT);
    }

    /// Reads one of the timer's registers off the bus.
    pub fn read_byte(bus: &MemoryBus, field: TimerPointers) -> (byte: u8)
        ensures
            byte == bus@.read(field.spec_address()),
    {
        bus.read_byte(field.address())
    }

    /// Writes one of the timer's registers through the bus.
    pub fn write_byte(bus: &mut MemoryBus, field: TimerPointers, to: u8)
        ensures
            final(bus)@ == old(bus)@.write(field.spec_address(), to),
    {
        bus.write_byte(field.address(), to);
    }
}

/// How the masks of the control register read over the integers.
pub proof fn lemma_control_bits(tac: u8)
    by (bit_vector)
    ensures
        tac & 0x3 == tac % 4,
{
}

/// A step of exactly one threshold ticks the counter exactly once,
/// wherever the divider stands: the counter goes up by one, or, from
/// `0xFF`, reloads from the reload register and requests the timer
/// interrupt.
pub proof fn lemma_one_period_one_tick(timer: Timer, bus: MemoryBus, cycles: u16)
    requires
        counter_enabled(bus@.read(TAC_ADDRESS)),
        cycles == threshold(bus@.read(TAC_ADDRESS)),
    ensures
        ({
            let tima = bus@.read(TIMA_ADDRESS);
            let tma = bus@.read(TMA_ADDRESS);
            let after = timer.spec_step(bus@, cycles).1;
            &&& after.read(TIMA_ADDRESS) == tick(tima, tma)
            &&& tima != 0xFF ==> after.read(TIMA_ADDRESS) == tima + 1 && after.inf == bus.inf
            &&& tima == 0xFF ==> after.read(TIMA_ADDRESS) == tma && after.inf == set_bit(
                bus.inf,
                TIMER_BIT,
            )
        }),
{
    let tac = bus@.read(TAC_ADDRESS);
    let tima = bus@.read(TIMA_ADDRESS);
    let tma = bus@.read(TMA_ADDRESS);
    let start: u16 = if bus@.div_reset {
        0
    } else {
        timer.div_counter
    };
    assert(ticks(start, cycles, tac) == 1) by {
        let t = threshold(tac);
        let r = start as int % t;
        assert(0 <= r < t);
        assert((r + t) / t == 1) by (nonlinear_arith)
            requires
                0 <= r < t,
        ;
    }
    assert(tima_after(tima, tma, 1) == tick(tima, tma)) by {
        assert(tima_after(tick(tima, tma), tma, 0) == tick(tima, tma));
    }
    assert(overflows(tima, tma, 1) == (tima == 0xFF)) by {
        assert(!overflows(tick(tima, tma), tma, 0));
    }
}

} // verus!
