use vstd::prelude::*;
use crate::registers::{wrap8, wrap16};

verus! {

/// The power of two whose bit of the system counter clocks the timer at rate `tac % 4`.
pub open spec fn rate_divisor(tac: u8) -> u16 {
    if tac % 4 == 0 {
        512
    } else if tac % 4 == 1 {
        8
    } else if tac % 4 == 2 {
        32
    } else {
        128
    }
}

/// The derived clock bit: the selected bit of the system counter, gated by the enable bit of `tac`.
pub open spec fn selected_bit(sysclk: u16, tac: u8) -> u8 {
    if (tac / 4) % 2 == 1 {
        ((sysclk / rate_divisor(tac)) % 2) as u8
    } else {
        0
    }
}

/// Whether the derived clock bit falls from 1 to 0.
pub open spec fn falls(before: u8, after: u8) -> bool {
    before == 1 && after == 0
}

/// The divider and timer unit.
pub struct Timer {
    /// The free-running system counter, in clock ticks.
    pub sysclk: u16,
    /// The timer counter (TIMA).
    pub tima: u8,
    /// The reload value (TMA).
    pub tma: u8,
    /// The control register (TAC): rate in bits 0–1, enable in bit 2.
    pub tac: u8,
    /// The derived clock bit as last computed.
    pub last_bit: u8,
    /// Set for the machine cycle in which an overflow reload took effect.
    pub tima_reload_cycle: bool,
    /// Machine cycles left until an overflow is reloaded and requested (0 or 1).
    pub tima_cycles_to_irq: u8,
    /// A pending timer interrupt request, consumed by the interrupt controller.
    pub tima_overflow_irq: bool,
}

impl Timer {
    pub open spec fn wf(&self) -> bool {
        &&& self.last_bit == selected_bit(self.sysclk, self.tac)
        &&& self.tima_cycles_to_irq <= 1
    }

    /// The counter after the derived bit moved from `before` to `after`: it counts up on a
    /// falling edge and arms the delayed overflow when it wraps to 0.
    pub open spec fn after_edge(self, before: u8, after: u8) -> Timer {
        if falls(before, after) {
            let t = wrap8(self.tima + 1);
            Timer { tima: t, tima_cycles_to_irq: if t == 0 { 1 } else { self.tima_cycles_to_irq }, ..self }
        } else {
            self
        }
    }

    /// The state after the system counter is set to `s`, with the edge that this makes.
    pub open spec fn with_sysclk(self, s: u16) -> Timer {
        Timer { sysclk: s, last_bit: selected_bit(s, self.tac), ..self }.after_edge(
            self.last_bit,
            selected_bit(s, self.tac),
        )
    }

    /// The state at the start of a machine cycle, once a pending overflow has been served.
    pub open spec fn served(self) -> Timer {
        if self.tima_cycles_to_irq == 1 {
            Timer {
                tima_cycles_to_irq: 0,
                tima_overflow_irq: true,
                tima: self.tma,
                tima_reload_cycle: true,
                ..self
            }
        } else {
            Timer { tima_reload_cycle: false, ..self }
        }
    }

    /// The state after one machine cycle.
    pub open spec fn ticked(self) -> Timer {
        self.served().with_sysclk(wrap16(self.sysclk + 4))
    }

    /// The value a read of a timer register returns.
    pub open spec fn io_value(&self, addr: u16) -> u8 {
        if addr == 0xFF04 {
            (self.sysclk / 256) as u8
        } else if addr == 0xFF05 {
            self.tima
        } else if addr == 0xFF06 {
            self.tma
        } else {
            self.tac
        }
    }

    /// The state after a write of `val` to timer register `addr`.
    pub open spec fn written(self, addr: u16, val: u8) -> Timer {
        if addr == 0xFF04 {
            self.with_sysclk(0)
        } else if addr == 0xFF05 {
            Timer {
                tima: if self.tima_reload_cycle { self.tima } else { val },
                tima_cycles_to_irq: if self.tima_cycles_to_irq == 1 { 0 } else { self.tima_cycles_to_irq },
                ..self
            }
        } else if addr == 0xFF06 {
            Timer { tima: if self.tima_reload_cycle { val } else { self.tima }, tma: val, ..self }
        } else {
            Timer { tac: val, last_bit: selected_bit(self.sysclk, val), ..self }.after_edge(
                self.last_bit,
                selected_bit(self.sysclk, val),
            )
        }
    }

    /// The unit at power-on: every counter and register 0, nothing pending.
    pub open spec fn new_spec() -> Timer {
        Timer {
            sysclk: 0,
            tima: 0,
            tma: 0,
            tac: 0,
            last_bit: 0,
            tima_reload_cycle: false,
            tima_cycles_to_irq: 0,
            tima_overflow_irq: false,
        }
    }

    pub fn new() -> (r: Self)
        ensures
            r.wf(),
            r == Self::new_spec(),
    {
        Timer {
            sysclk: 0,
            tima: 0,
            tma: 0,
            tac: 0,
            last_bit: 0,
            tima_reload_cycle: false,
            tima_cycles_to_irq: 0,
            tima_overflow_irq: false,
        }
    }

    /// The derived clock bit for the given counter and control values.
    fn derived_bit(sysclk: u16, tac: u8) -> (r: u8)
        ensures
            r == selected_bit(sysclk, tac),
    {
        if (tac / 4) % 2 == 1 {
            let divisor: u16 = if tac % 4 == 0 {
                512
            } else if tac % 4 == 1 {
                8
            } else if tac % 4 == 2 {
                32
            } else {
                128
            };
            ((sysclk / divisor) % 2) as u8
        } else {
            0
        }
    }

    /// Sets the system counter and counts a falling edge of the derived bit, if there is one.
    pub fn sysclk_change(&mut self, new_sysclk: u16)
        requires
            old(self).wf(),
        ensures
            final(self).wf(),
            *final(self) == old(self).with_sysclk(new_sysclk),
    {
        self.sysclk = new_sysclk;
        let current_bit = Self::derived_bit(self.sysclk, self.tac);
        let before = self.last_bit;
        self.last_bit = current_bit;
        self.fallen_edge(before, current_bit);
    }

    /// Counts the timer up on a 1→0 transition, arming the delayed overflow when it wraps.
    fn fallen_edge(&mut self, before: u8, after: u8)
        requires
            old(self).tima_cycles_to_irq <= 1,
        ensures
            final(self).tima_cycles_to_irq <= 1,
            *final(self) == old(self).after_edge(before, after),
    {
        if before == 1 && after == 0 {
            self.tima = self.tima.wrapping_add(1);
            if self.tima == 0 {
                self.tima_cycles_to_irq = 1;
            }
        }
    }

    /// Advances one machine cycle: serves an overflow armed on the previous cycle
    /// (reload from TMA and request the interrupt), then moves the counter on by 4.
    pub fn inc_sysclk(&mut self)
        requires
            old(self).wf(),
        ensures
            final(self).wf(),
            *final(self) == old(self).ticked(),
    {
        self.tima_reload_cycle = false;
        if self.tima_cycles_to_irq > 0 {
            self.tima_cycles_to_irq = self.tima_cycles_to_irq - 1;
            if self.tima_cycles_to_irq == 0 {
                self.tima_overflow_irq = true;
                self.tima = self.tma;
                self.tima_reload_cycle = true;
            }
        }
        self.sysclk_change(self.sysclk.wrapping_add(4));
    }

    /// Writes a timer register: the divider resets the system counter, the counter ignores
    /// writes in the reload cycle and cancels a pending overflow, the reload value also lands
    /// in the counter during the reload cycle, and the control register re-derives the clock bit.
    pub fn write_io(&mut self, addr: u16, val: u8)
        requires
            old(self).wf(),
            0xFF04 <= addr <= 0xFF07,
        ensures
            final(self).wf(),
            *final(self) == old(self).written(addr, val),
    {
        if addr == 0xFF04 {
            self.sysclk_change(0);
        } else if addr == 0xFF05 {
            if !self.tima_reload_cycle {
                self.tima = val;
            }
            if self.tima_cycles_to_irq == 1 {
                self.tima_cycles_to_irq = 0;
            }
        } else if addr == 0xFF06 {
            if self.tima_reload_cycle {
                self.tima = val;
            }
            self.tma = val;
        } else {
            let before = self.last_bit;
            self.tac = val;
            let current_bit = Self::derived_bit(self.sysclk, val);
            self.last_bit = current_bit;
            self.fallen_edge(before, current_bit);
        }
    }

    /// Reads a timer register; the divider is the high byte of the system counter.
    pub fn read_io(&self, addr: u16) -> (r: u8)
        requires
            0xFF04 <= addr <= 0xFF07,
        ensures
            r == self.io_value(addr),
    {
        if addr == 0xFF04 {
            (self.sysclk / 256) as u8
        } else if addr == 0xFF05 {
            self.tima
        } else if addr == 0xFF06 {
            self.tma
        } else {
            self.tac
        }
    }
}

/// Over one machine cycle the timer counter counts up exactly when the derived clock bit
/// falls from 1 to 0 (beyond the reload of a pending overflow).
pub proof fn lemma_tick_counts_falling_edges(t: Timer)
    requires
        t.wf(),
    ensures
        t.ticked().tima == if falls(
            selected_bit(t.sysclk, t.tac),
            selected_bit(wrap16(t.sysclk + 4), t.tac),
        ) {
            wrap8(t.served().tima + 1)
        } else {
            t.served().tima
        },
{
}

/// After the divider is reset, the derived clock bit is recomputed from a counter of 0,
/// where it is low: the next falling edge comes only after the counter climbs again.
pub proof fn lemma_divider_reset(t: Timer)
    requires
        t.wf(),
    ensures
        t.written(0xFF04, 0).sysclk == 0,
        t.written(0xFF04, 0).last_bit == 0,
        t.written(0xFF04, 0).wf(),
{
}

} // verus!
