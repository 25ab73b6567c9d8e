use vstd::prelude::*;

use crate::bitops::{lemma_byte_masks, wadd8};
use crate::interrupt::{InterruptFlag, InterruptHandler};
use crate::region::{MemoryRegion, REG_DIV_ADDR, REG_TAC_ADDR, REG_TIMA_ADDR, REG_TMA_ADDR};

verus! {

/// T-cycles between two increments of DIV (CLOCK_SPEED / 16384)
pub const DIV_PERIOD: u16 = 256;

// Default DMG register values
pub const DEFAULT_REG_DIV: u8 = 0x18;
pub const DEFAULT_REG_TIMA: u8 = 0x00;
pub const DEFAULT_REG_TMA: u8 = 0x00;
pub const DEFAULT_REG_TAC: u8 = 0xF8;

// TAC flags
pub const FLAG_TIMER_ENABLED: u8 = 0b00000100;
pub const FLAG_INPUT_CLOCK_SEL: u8 = 0b00000011;

// Input clock values
pub const INPUT_CLOCK_SEL_1024: u8 = 0x00;
pub const INPUT_CLOCK_SEL_16: u8 = 0x01;
pub const INPUT_CLOCK_SEL_64: u8 = 0x02;
pub const INPUT_CLOCK_SEL_256: u8 = 0x03;

/// T-cycles between two increments of TIMA for a TAC value.
pub open spec fn tac_period(tac: u8) -> u16 {
    let sel = tac & FLAG_INPUT_CLOCK_SEL;
    if sel == INPUT_CLOCK_SEL_1024 {
        1024
    } else if sel == INPUT_CLOCK_SEL_16 {
        16
    } else if sel == INPUT_CLOCK_SEL_64 {
        64
    } else {
        256
    }
}

pub struct Timer {
    /// Divider
    pub reg_div: u8,
    /// Timer counter
    pub reg_tima: u8,
    /// Timer modulo
    pub reg_tma: u8,
    /// Timer control
    pub reg_tac: u8,
    /// divider counter cycles
    pub div_cycles: u16,
    /// tima counter of cycles
    pub tima_cycles: u16,
    /// keep track of the clock period
    pub tima_period: u16,
}

impl Timer {
    /// The counters stay below their periods.
    pub open spec fn wf(self) -> bool {
        &&& self.div_cycles <= DIV_PERIOD
        &&& self.tima_period == 16 || self.tima_period == 64 || self.tima_period == 256
            || self.tima_period == 1024
        &&& self.tima_cycles < self.tima_period
    }

    /// The timer after power-on.
    pub open spec fn initial() -> Timer {
        Timer {
            reg_div: DEFAULT_REG_DIV,
            reg_tima: DEFAULT_REG_TIMA,
            reg_tma: DEFAULT_REG_TMA,
            reg_tac: DEFAULT_REG_TAC,
            div_cycles: 0,
            tima_cycles: 0,
            tima_period: tac_period(DEFAULT_REG_TAC),
        }
    }

    /// Whether TIMA counts.
    pub open spec fn enabled(self) -> bool {
        self.reg_tac & FLAG_TIMER_ENABLED == FLAG_TIMER_ENABLED
    }

    /// The timer after one T-cycle, and whether TIMA overflowed in it.
    ///
    /// DIV counts every `DIV_PERIOD + 1` cycles.  A change of the TAC clock restarts the
    /// TIMA count; otherwise an enabled TIMA counts once per period, and when it reaches
    /// 0xFF it is reloaded from TMA and the overflow interrupt is due.
    pub open spec fn stepped(self) -> (Timer, bool) {
        let div_cycles = self.div_cycles + 1;
        let (reg_div, div_cycles) = if div_cycles > DIV_PERIOD {
            (wadd8(self.reg_div, 1), 0u16)
        } else {
            (self.reg_div, div_cycles as u16)
        };
        let t = Timer { reg_div, div_cycles, ..self };
        let period = tac_period(self.reg_tac);
        if period != self.tima_period {
            (Timer { tima_period: period, tima_cycles: 0, ..t }, false)
        } else if self.enabled() {
            let tima_cycles = self.tima_cycles + 1;
            if tima_cycles >= self.tima_period {
                let tima = wadd8(self.reg_tima, 1);
                if tima == 0xFF {
                    (Timer { reg_tima: self.reg_tma, tima_cycles: 0, ..t }, true)
                } else {
                    (Timer { reg_tima: tima, tima_cycles: 0, ..t }, false)
                }
            } else {
                (Timer { tima_cycles: tima_cycles as u16, ..t }, false)
            }
        } else {
            (t, false)
        }
    }

    pub open spec fn written(self, address: u16, value: u8) -> Timer {
        if address == REG_DIV_ADDR {
            Timer { reg_div: 0, ..self }
        } else if address == REG_TIMA_ADDR {
            Timer { reg_tima: value, ..self }
        } else if address == REG_TMA_ADDR {
            Timer { reg_tma: value, ..self }
        } else {
            Timer { reg_tac: value, ..self }
        }
    }

    pub open spec fn register(self, address: u16) -> u8 {
        if address == REG_DIV_ADDR {
            self.reg_div
        } else if address == REG_TIMA_ADDR {
            self.reg_tima
        } else if address == REG_TMA_ADDR {
            self.reg_tma
        } else {
            self.reg_tac
        }
    }

    pub fn new() -> (t: Self)
        ensures
            t == Self::initial(),
            t.wf(),
    {
        Self {
            reg_div: DEFAULT_REG_DIV,
            reg_tima: DEFAULT_REG_TIMA,
            reg_tma: DEFAULT_REG_TMA,
            reg_tac: DEFAULT_REG_TAC,
            div_cycles: 0,
            tima_cycles: 0,
            tima_period: Timer::period_from_tac(DEFAULT_REG_TAC),
        }
    }

    /// Reset all registers and state
    pub fn reset(&mut self)
        ensures
            *final(self) == Self::initial(),
            final(self).wf(),
    {
        self.reg_div = DEFAULT_REG_DIV;
        self.reg_tima = DEFAULT_REG_TIMA;
        self.reg_tma = DEFAULT_REG_TMA;
        self.reg_tac = DEFAULT_REG_TAC;
        self.div_cycles = 0;
        self.tima_cycles = 0;
        self.tima_period = Timer::period_from_tac(DEFAULT_REG_TAC);
    }

    /// Determine how many ticks to wait
    pub fn period_from_tac(tac: u8) -> (p: u16)
        ensures
            p == tac_period(tac),
            p == 16 || p == 64 || p == 256 || p == 1024,
    {
        let sel = tac & FLAG_INPUT_CLOCK_SEL;
        proof {
            lemma_byte_masks(tac);
        }
        if sel == INPUT_CLOCK_SEL_1024 {
            1024
        } else if sel == INPUT_CLOCK_SEL_16 {
            16
        } else if sel == INPUT_CLOCK_SEL_64 {
            64
        } else {
            256
        }
    }

    /// Single timer step for each cpu T-cycle
    pub fn step(&mut self, ir: &mut InterruptHandler)
        requires
            old(self).wf(),
        ensures
            final(self).wf(),
            *final(self) == old(self).stepped().0,
            *final(ir) == (if old(self).stepped().1 {
                old(ir).requested(InterruptFlag::TimerOverflow)
            } else {
                *old(ir)
            }),
    {
        self.div_cycles = self.div_cycles + 1;

        if self.div_cycles > DIV_PERIOD {
            self.reg_div = self.reg_div.wrapping_add(1);
            self.div_cycles = 0;
        }
        let new_tima_period = Timer::period_from_tac(self.reg_tac);

        if new_tima_period != self.tima_period {
            // period changed
            self.tima_period = new_tima_period;
            self.tima_cycles = 0;
        } else if (self.reg_tac & FLAG_TIMER_ENABLED) == FLAG_TIMER_ENABLED {
            self.tima_cycles = self.tima_cycles + 1;

            if self.tima_cycles >= self.tima_period {
                // Reached cycles limit, increment tima
                self.reg_tima = self.reg_tima.wrapping_add(1);
                self.tima_cycles = 0;
                if self.reg_tima == 0xFF {
                    self.reg_tima = self.reg_tma;
                    ir.request(InterruptFlag::TimerOverflow);
                }
            }
        }
    }
}

impl MemoryRegion for Timer {
    open spec fn maps(address: u16) -> bool {
        REG_DIV_ADDR <= address <= REG_TAC_ADDR
    }

    open spec fn inv(&self) -> bool {
        self.wf()
    }

    fn read(&self, address: u16) -> (r: u8)
        ensures
            r == self.register(address),
    {
        if address == REG_DIV_ADDR {
            self.reg_div
        } else if address == REG_TIMA_ADDR {
            self.reg_tima
        } else if address == REG_TMA_ADDR {
            self.reg_tma
        } else {
            self.reg_tac
        }
    }

    /// Any write to DIV clears it.
    fn write(&mut self, address: u16, value: u8)
        ensures
            *final(self) == old(self).written(address, value),
    {
        if address == REG_DIV_ADDR {
            self.reg_div = 0;
        } else if address == REG_TIMA_ADDR {
            self.reg_tima = value;
        } else if address == REG_TMA_ADDR {
            self.reg_tma = value;
        } else {
            self.reg_tac = value;
        }
    }
}

/// With TAC bit 2 clear the timer is off: a T-cycle leaves TIMA alone and raises no
/// interrupt.  With it set, TIMA counts once per period of the selected clock, and passing
/// 0xFE it is reloaded from TMA and the interrupt is raised.
pub proof fn law_timer_enable(t: Timer)
    requires
        t.wf(),
    ensures
        (t.reg_tac / 4) % 2 == 0 ==> t.stepped().0.reg_tima == t.reg_tima && !t.stepped().1,
        (t.reg_tac / 4) % 2 == 1 && tac_period(t.reg_tac) == t.tima_period ==> {
            let (n, irq) = t.stepped();
            if t.tima_cycles + 1 < t.tima_period {
                n.reg_tima == t.reg_tima && !irq
            } else if t.reg_tima == 0xFE {
                n.reg_tima == t.reg_tma && irq
            } else {
                n.reg_tima == (t.reg_tima + 1) % 256 && !irq
            }
        },
{
    crate::bitops::lemma_byte_fields(0, 0, 0, 0, t.reg_tac, 0, 0, 0, 0);
}

/// The clock select of TAC is its two low bits: 0 counts every 1024 T-cycles (4096 Hz), 1
/// every 16 (262144 Hz), 2 every 64 (65536 Hz) and 3 every 256 (16384 Hz).
pub proof fn law_timer_frequency(tac: u8)
    ensures
        tac % 4 == 0 ==> tac_period(tac) == 1024,
        tac % 4 == 1 ==> tac_period(tac) == 16,
        tac % 4 == 2 ==> tac_period(tac) == 64,
        tac % 4 == 3 ==> tac_period(tac) == 256,
{
    crate::bitops::lemma_low_masks(tac, 0);
}

/// DIV counts one step in 257 T-cycles: a step advances the cycle count modulo 257, and DIV
/// goes one up (modulo 256) exactly on the step that wraps the count, whatever TAC holds.
pub proof fn law_div_counts(t: Timer)
    requires
        t.wf(),
    ensures
        t.stepped().0.div_cycles == (t.div_cycles + 1) % 257,
        t.stepped().0.reg_div == (if t.div_cycles == 256 { (t.reg_div + 1) % 256 } else { t.reg_div as int }),
        t.stepped().0.reg_tma == t.reg_tma,
        t.stepped().0.reg_tac == t.reg_tac,
{
}

} // verus!
