use vstd::prelude::*;
use vstd::arithmetic::div_mod::{
    lemma_fundamental_div_mod,
    lemma_fundamental_div_mod_converse_div,
    lemma_fundamental_div_mod_converse_mod,
    lemma_mod_multiples_vanish,
    lemma_hoist_over_denominator,
};
use crate::cpu::wrap16;

verus! {

/// T-cycles per TIMA increment for the rate selected by TAC bits 1-0.
pub open spec fn timer_period(tac: u8) -> int {
    if tac % 4 == 0 {
        1024
    } else if tac % 4 == 1 {
        16
    } else if tac % 4 == 2 {
        64
    } else {
        256
    }
}

/// TAC bit 2: the timer runs.
pub open spec fn timer_enabled(tac: u8) -> bool {
    (tac / 4) % 2 == 1
}

/// How many TIMA increments fall in the `t` T-cycles after the internal
/// counter reads `divider`: one each time the counter reaches a multiple of
/// the period.
pub open spec fn timer_ticks(divider: u16, t: int, tac: u8) -> int {
    (divider as int + t) / timer_period(tac) - (divider as int) / timer_period(tac)
}

/// T-cycles between a TIMA overflow and its reload from TMA: one M-cycle.
pub const RELOAD_DELAY: u8 = 4;

/// DIV, TIMA, TMA and TAC; `divider` is the free-running 16-bit counter whose
/// high byte is DIV.
#[derive(Clone, Copy, Debug, PartialEq, Eq, Structural)]
pub struct Timer {
    pub divider: u16,
    pub tima_register: u8,
    pub tma_register: u8,
    pub tac_register: u8,
    /// T-cycles left until an overflowed TIMA is reloaded from TMA; 0 when
    /// no reload is pending.
    pub reload_delay: u8,
}

/// The timer one T-cycle later, and whether that T-cycle requests the timer
/// interrupt. The counter advances; a pending reload counts down and, on
/// reaching 0, loads TMA into TIMA and requests the interrupt; otherwise,
/// when the timer runs and the counter reaches a multiple of the period, TIMA
/// is incremented, and an overflow leaves 0 there and starts the reload delay.
pub open spec fn timer_step(s: Timer) -> (Timer, bool) {
    let d = wrap16(s.divider + 1);
    if s.reload_delay > 0 {
        if s.reload_delay == 1 {
            (Timer { divider: d, tima_register: s.tma_register, reload_delay: 0, ..s }, true)
        } else {
            (Timer { divider: d, reload_delay: (s.reload_delay - 1) as u8, ..s }, false)
        }
    } else if timer_enabled(s.tac_register) && (d as int) % timer_period(s.tac_register) == 0 {
        if s.tima_register == 255 {
            (Timer { divider: d, tima_register: 0, reload_delay: RELOAD_DELAY, ..s }, false)
        } else {
            (Timer { divider: d, tima_register: (s.tima_register + 1) as u8, ..s }, false)
        }
    } else {
        (Timer { divider: d, ..s }, false)
    }
}

/// The timer after `n` T-cycles, and whether any of them requested the timer
/// interrupt.
pub open spec fn timer_run(s: Timer, n: nat) -> (Timer, bool)
    decreases n,
{
    if n == 0 {
        (s, false)
    } else {
        let (a, i1) = timer_run(s, (n - 1) as nat);
        let (b, i2) = timer_step(a);
        (b, i1 || i2)
    }
}

/// Running the timer moves the counter on by `n` and keeps TMA and TAC.
pub proof fn lemma_timer_run_frame(s: Timer, n: nat)
    ensures
        timer_run(s, n).0.divider == wrap16(s.divider + n),
        timer_run(s, n).0.tma_register == s.tma_register,
        timer_run(s, n).0.tac_register == s.tac_register,
    decreases n,
{
    if n > 0 {
        lemma_timer_run_frame(s, (n - 1) as nat);
        let a = timer_run(s, (n - 1) as nat).0;
        assert(wrap16(a.divider + 1) == wrap16(s.divider + n)) by {
            assert(a.divider == (s.divider + n - 1) % 65536);
        }
    }
}

/// With no reload pending and no overflow in reach, TIMA goes up by one per
/// period boundary that the counter crosses, and no interrupt is requested;
/// a stopped timer keeps TIMA.
pub proof fn lemma_timer_run_counts(s: Timer, n: nat)
    requires
        s.reload_delay == 0,
    ensures
        timer_enabled(s.tac_register) && s.tima_register + timer_ticks(s.divider, n as int, s.tac_register)
            <= 255 ==> timer_run(s, n).0.tima_register == s.tima_register + timer_ticks(
            s.divider,
            n as int,
            s.tac_register,
        ) && timer_run(s, n).0.reload_delay == 0 && !timer_run(s, n).1,
        !timer_enabled(s.tac_register) ==> timer_run(s, n).0.tima_register == s.tima_register
            && timer_run(s, n).0.reload_delay == 0 && !timer_run(s, n).1,
    decreases n,
{
    if n > 0 {
        let p = timer_period(s.tac_register);
        let d0 = s.divider as int;
        lemma_timer_run_counts(s, (n - 1) as nat);
        lemma_timer_run_frame(s, (n - 1) as nat);
        lemma_tick_step(d0 + n - 1, p);
        lemma_counter_mod(d0 + n, p);
        assert(0 <= (d0 + n - 1) / p) by (nonlinear_arith)
            requires
                d0 + n - 1 >= 0,
                p > 0,
        ;
        assert(d0 / p <= (d0 + n - 1) / p) by {
            vstd::arithmetic::div_mod::lemma_div_is_ordered(d0, d0 + n - 1, p);
        }
    }
}

proof fn lemma_tick_step(t: int, p: int)
    requires
        t >= 0,
        p > 0,
    ensures
        (t + 1) / p == t / p + (if (t + 1) % p == 0 { 1int } else { 0 }),
{
    lemma_fundamental_div_mod(t, p);
    let q = t / p;
    let r = t % p;
    assert(t == q * p + r) by (nonlinear_arith)
        requires
            t == p * q + r,
    ;
    if r + 1 < p {
        lemma_fundamental_div_mod_converse_div(t + 1, p, q, r + 1);
        lemma_fundamental_div_mod_converse_mod(t + 1, p, q, r + 1);
    } else {
        assert(t + 1 == (q + 1) * p + 0) by (nonlinear_arith)
            requires
                t == q * p + r,
                r + 1 == p,
        ;
        lemma_fundamental_div_mod_converse_div(t + 1, p, q + 1, 0);
        lemma_fundamental_div_mod_converse_mod(t + 1, p, q + 1, 0);
    }
}

proof fn lemma_counter_mod(t: int, p: int)
    requires
        t >= 0,
        p == 16 || p == 64 || p == 256 || p == 1024,
    ensures
        (t % 65536) % p == t % p,
{
    lemma_fundamental_div_mod(t, 65536);
    let q = t / 65536;
    let k = 65536int / p;
    assert(65536 * q == p * (k * q)) by (nonlinear_arith)
        requires
            k == 65536int / p,
            p == 16 || p == 64 || p == 256 || p == 1024,
    ;
    lemma_mod_multiples_vanish(k * q, t % 65536, p);
}

/// With TAC = 0x05, TIMA is incremented exactly `n` times in `16 * n` T-cycles,
/// from any state of the counter.
pub proof fn lemma_timer_frequency(divider: u16, n: nat)
    ensures
        timer_ticks(divider, 16 * n as int, 0x05) == n,
{
    lemma_hoist_over_denominator(divider as int, n as int, 16);
}

impl Timer {
    pub fn new() -> (r: Timer)
        ensures
            r == (Timer {
                divider: 0,
                tima_register: 0,
                tma_register: 0,
                tac_register: 0,
                reload_delay: 0,
            }),
    {
        Timer { divider: 0, tima_register: 0, tma_register: 0, tac_register: 0, reload_delay: 0 }
    }

    /// DIV, the high byte of the counter.
    pub fn div_register(&self) -> (r: u8)
        ensures
            r == self.divider / 256,
    {
        (self.divider / 256) as u8
    }

    /// A write to DIV resets the whole counter.
    pub fn reset_divider(&mut self)
        ensures
            *final(self) == (Timer { divider: 0, ..*old(self) }),
    {
        self.divider = 0;
    }

    /// Runs the timer for `t_cycles` T-cycles. Returns whether the timer
    /// interrupt was requested, which happens when an overflowed TIMA is
    /// reloaded from TMA, one M-cycle after the overflow.
    pub fn cycle(&mut self, t_cycles: u32) -> (interrupt: bool)
        ensures
            (*final(self), interrupt) == timer_run(*old(self), t_cycles as nat),
            final(self).divider == wrap16(old(self).divider + t_cycles),
            old(self).reload_delay == 0 && !timer_enabled(old(self).tac_register)
                ==> final(self).tima_register == old(self).tima_register && !interrupt,
            old(self).reload_delay == 0 && timer_enabled(old(self).tac_register)
                && old(self).tima_register + timer_ticks(old(self).divider, t_cycles as int, old(self).tac_register)
                <= 255 ==> final(self).tima_register == old(self).tima_register + timer_ticks(
                old(self).divider,
                t_cycles as int,
                old(self).tac_register,
            ) && !interrupt,
    {
        let enabled = (self.tac_register / 4) % 2 == 1;
        let m = self.tac_register % 4;
        let period: u16 = if m == 0 {
            1024
        } else if m == 1 {
            16
        } else if m == 2 {
            64
        } else {
            256
        };
        let mut interrupt = false;
        let mut i: u32 = 0;
        while i < t_cycles
            invariant
                i <= t_cycles,
                period as int == timer_period(old(self).tac_register),
                enabled == timer_enabled(old(self).tac_register),
                (*self, interrupt) == timer_run(*old(self), i as nat),
                self.tac_register == old(self).tac_register,
            decreases t_cycles - i,
        {
            proof {
                lemma_timer_run_frame(*old(self), i as nat);
            }
            self.divider = self.divider.wrapping_add(1);
            if self.reload_delay > 0 {
                self.reload_delay = self.reload_delay - 1;
                if self.reload_delay == 0 {
                    self.tima_register = self.tma_register;
                    interrupt = true;
                }
            } else if enabled && self.divider % period == 0 {
                if self.tima_register == 255 {
                    self.tima_register = 0;
                    self.reload_delay = RELOAD_DELAY;
                } else {
                    self.tima_register = self.tima_register + 1;
                }
            }
            i = i + 1;
        }
        proof {
            lemma_timer_run_frame(*old(self), t_cycles as nat);
            if old(self).reload_delay == 0 {
                lemma_timer_run_counts(*old(self), t_cycles as nat);
            }
        }
        interrupt
    }
}

} // verus!
