//! Programmable timer: the free-running DIV counter and the TIMA counter
//! with its TMA reload value and TAC control register. A TIMA overflow
//! latches an interrupt request that the orchestrator collects.

use vstd::prelude::*;

verus! {

pub struct Timer {
    pub div: u8,
    pub tima: u8,
    pub tma: u8,
    pub tac: u8,
    pub div_counter: u16,
    pub tima_counter: u16,
    pub interrupt_requested: bool,
}

/// T-cycles needed for one TIMA increment, selected by TAC bits 1:0.
pub open spec fn tima_rate(tac: u8) -> u16 {
    if tac & 0x03 == 0 {
        1024
    } else if tac & 0x03 == 1 {
        16
    } else if tac & 0x03 == 2 {
        64
    } else {
        256
    }
}

pub open spec fn timer_enabled(t: Timer) -> bool {
    t.tac & 0x04 != 0
}

/// TIMA after `k` increments together with whether any of them overflowed;
/// an increment of 0xFF reloads from `tma`.
pub open spec fn tima_after(tima: u8, tma: u8, k: nat) -> (u8, bool)
    decreases k,
{
    if k == 0 {
        (tima, false)
    } else {
        let (t, ov) = tima_after(tima, tma, (k - 1) as nat);
        if t == 0xFF {
            (tma, true)
        } else {
            ((t + 1) as u8, ov)
        }
    }
}

/// DIV after `k` wrap-around increments.
pub open spec fn div_after(div: u8, k: nat) -> u8
    decreases k,
{
    if k == 0 {
        div
    } else {
        let d = div_after(div, (k - 1) as nat);
        if d == 0xFF {
            0
        } else {
            (d + 1) as u8
        }
    }
}

/// The timer registers an address resolves to; anything outside
/// 0xFF04..=0xFF07 reads 0xFF, and TAC's unused bits read as ones.
pub open spec fn timer_read(t: Timer, address: u16) -> u8 {
    if address == 0xFF04 {
        t.div
    } else if address == 0xFF05 {
        t.tima
    } else if address == 0xFF06 {
        t.tma
    } else if address == 0xFF07 {
        t.tac | 0xF8
    } else {
        0xFF
    }
}

/// The timer after a register write: DIV resets on any write, TAC keeps
/// only its low three bits, addresses outside the block are ignored.
pub open spec fn timer_written(t: Timer, address: u16, value: u8) -> Timer {
    if address == 0xFF04 {
        Timer { div: 0, div_counter: 0, ..t }
    } else if address == 0xFF05 {
        Timer { tima: value, ..t }
    } else if address == 0xFF06 {
        Timer { tma: value, ..t }
    } else if address == 0xFF07 {
        Timer { tac: value & 0x07, ..t }
    } else {
        t
    }
}

/// The timer after `cpu_cycles` elapsed T-cycles: DIV advances once per
/// 256 cycles (16384 Hz), and TIMA, when enabled, once per `tima_rate`
/// cycles.
pub open spec fn timer_stepped(t: Timer, cpu_cycles: u8) -> Timer {
    let sub = cpu_cycles as int;
    let div_total = t.div_counter + sub;
    let div = div_after(t.div, (div_total / 256) as nat);
    let div_counter = (div_total % 256) as u16;
    if timer_enabled(t) {
        let rate = tima_rate(t.tac) as int;
        let tima_total = t.tima_counter + sub;
        let k = (tima_total / rate) as nat;
        let (tima, overflowed) = tima_after(t.tima, t.tma, k);
        Timer {
            div,
            div_counter,
            tima,
            tima_counter: (tima_total % rate) as u16,
            interrupt_requested: t.interrupt_requested || overflowed,
            ..t
        }
    } else {
        Timer { div, div_counter, ..t }
    }
}

impl Timer {
    /// The prescaler counters never hold a full period; both start at zero
    /// and every step drains them below their period.
    pub open spec fn wf(self) -> bool {
        &&& self.div_counter < 256
        &&& self.tima_counter < 1024
    }

    pub fn new() -> (r: Timer)
        ensures
            r == (Timer {
                div: 0,
                tima: 0,
                tma: 0,
                tac: 0,
                div_counter: 0,
                tima_counter: 0,
                interrupt_requested: false,
            }),
    {
        Timer {
            div: 0,
            tima: 0,
            tma: 0,
            tac: 0,
            div_counter: 0,
            tima_counter: 0,
            interrupt_requested: false,
        }
    }

    pub fn read_register(&self, address: u16) -> (r: u8)
        ensures
            r == timer_read(*self, address),
    {
        if address == 0xFF04 {
            self.div
        } else if address == 0xFF05 {
            self.tima
        } else if address == 0xFF06 {
            self.tma
        } else if address == 0xFF07 {
            self.tac | 0xF8
        } else {
            0xFF
        }
    }

    pub fn write_register(&mut self, address: u16, value: u8)
        ensures
            *final(self) == timer_written(*old(self), address, value),
    {
        if address == 0xFF04 {
            self.div = 0;
            self.div_counter = 0;
        } else if address == 0xFF05 {
            self.tima = value;
        } else if address == 0xFF06 {
            self.tma = value;
        } else if address == 0xFF07 {
            self.tac = value & 0x07;
        }
    }

    #[verifier::spinoff_prover]
    #[verifier::rlimit(100)]
    pub fn step(&mut self, cpu_cycles: u8)
        requires
            old(self).wf(),
        ensures
            *final(self) == timer_stepped(*old(self), cpu_cycles),
            final(self).wf(),
    {
        let timer_cycles: u16 = cpu_cycles as u16;
        let ghost t0 = *self;
        let ghost div_total = t0.div_counter + cpu_cycles as int;

        self.div_counter = self.div_counter + timer_cycles;
        let ghost mut done: nat = 0;
        while self.div_counter >= 256
            invariant
                self.div_counter + 256 * done == div_total,
                self.div == div_after(t0.div, done),
                self.tima == t0.tima,
                self.tma == t0.tma,
                self.tac == t0.tac,
                self.tima_counter == t0.tima_counter,
                self.interrupt_requested == t0.interrupt_requested,
            decreases self.div_counter,
        {
            self.div = self.div.wrapping_add(1);
            self.div_counter = self.div_counter - 256;
            proof {
                done = done + 1;
            }
        }
        proof {
            assert(done == div_total / 256 && self.div_counter == div_total % 256) by {
                assert(self.div_counter + 256 * done == div_total);
                assert(0 <= self.div_counter < 256);
                vstd::arithmetic::div_mod::lemma_fundamental_div_mod_converse(
                    div_total,
                    256,
                    done as int,
                    self.div_counter as int,
                );
            }
        }

        if self.is_timer_enabled() {
            let rate: u16 = self.get_tima_frequency();
            let ghost tima_total = t0.tima_counter + cpu_cycles as int;
            self.tima_counter = self.tima_counter + timer_cycles;
            let ghost mut k: nat = 0;
            let ghost mut ov: bool = false;
            while self.tima_counter >= rate
                invariant
                    rate == tima_rate(t0.tac),
                    16 <= rate,
                    self.tima_counter + rate * k == tima_total,
                    (self.tima, ov) == tima_after(t0.tima, t0.tma, k),
                    self.interrupt_requested == (t0.interrupt_requested || ov),
                    self.div == timer_stepped(t0, cpu_cycles).div,
                    self.div_counter == timer_stepped(t0, cpu_cycles).div_counter,
                    self.tma == t0.tma,
                    self.tac == t0.tac,
                decreases self.tima_counter,
            {
                self.tima_counter = self.tima_counter - rate;
                if self.tima == 0xFF {
                    self.tima = self.tma;
                    self.interrupt_requested = true;
                    proof {
                        ov = true;
                    }
                } else {
                    self.tima = self.tima.wrapping_add(1);
                }
                proof {
                    k = k + 1;
                }
            }
            proof {
                let r_int = rate as int;
                let kk = k as int;
                let rem = self.tima_counter as int;
                assert(self.tima_counter + rate * k == tima_total);
                assert(rate * k == kk * r_int) by (nonlinear_arith)
                    requires
                        kk == k && r_int == rate,
                ;
                assert(0 <= rem < r_int);
                vstd::arithmetic::div_mod::lemma_fundamental_div_mod_converse(
                    tima_total,
                    r_int,
                    kk,
                    rem,
                );
                assert(k == tima_total / r_int && self.tima_counter == tima_total % r_int);
            }
        }
    }

    fn is_timer_enabled(&self) -> (r: bool)
        ensures
            r == timer_enabled(*self),
    {
        (self.tac & 0x04) != 0
    }

    fn get_tima_frequency(&self) -> (r: u16)
        ensures
            r == tima_rate(self.tac),
    {
        let sel = self.tac & 0x03;
        proof {
            let t = self.tac;
            assert(t & 0x03 < 4) by (bit_vector);
        }
        if sel == 0 {
            1024
        } else if sel == 1 {
            16
        } else if sel == 2 {
            64
        } else {
            256
        }
    }

    /// Hands out and clears the latched overflow interrupt.
    pub fn take_interrupt(&mut self) -> (r: bool)
        ensures
            r == old(self).interrupt_requested,
            *final(self) == (Timer { interrupt_requested: false, ..*old(self) }),
    {
        let interrupt = self.interrupt_requested;
        self.interrupt_requested = false;
        interrupt
    }
}

} // verus!
