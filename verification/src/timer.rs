//! The programmable timer: a free-running divider that increments every 256
//! cycles, and a counter that, while enabled, increments at a rate chosen by
//! the control register (one step per 1024/16/64/128 cycles for encodings
//! 0/1/2/3), reloads from the modulo register on wrap, and raises a one-shot
//! interrupt flag that the bus consumes.

use vstd::arithmetic::div_mod::lemma_fundamental_div_mod_converse;
use vstd::prelude::*;

verus! {

pub struct Timer {
    /// The divider register (address 0xff04).
    pub divider: u8,
    /// The counter register (address 0xff05).
    pub counter: u8,
    /// The modulo register (address 0xff06): reload value on counter wrap.
    pub modulo: u8,
    /// Counter enable bit of the control register.
    pub start: bool,
    /// Cycles per counter step, decoded from the control register.
    pub step: u32,
    /// Cycle accumulator for the counter.
    pub cnt: u32,
    /// Cycle accumulator for the divider.
    pub div: u32,
    /// One-shot interrupt request, consumed by the bus.
    pub interrupt: bool,
}

impl Timer {
    pub open spec fn wf(self) -> bool {
        &&& (self.step == 1024 || self.step == 16 || self.step == 64 || self.step == 128)
        &&& self.div < 256
        &&& self.cnt < 1024
    }

    /// Counter value and whether a wrap occurred after `k` increments, the
    /// counter reloading from `modulo` each time it passes 0xff.
    pub open spec fn tima_steps(counter: u8, modulo: u8, k: nat) -> (u8, bool)
        decreases k,
    {
        if k == 0 {
            (counter, false)
        } else {
            let prev = Self::tima_steps(counter, modulo, (k - 1) as nat);
            if prev.0 == 255 {
                (modulo, true)
            } else {
                ((prev.0 + 1) as u8, prev.1)
            }
        }
    }

    /// The timer after `ticks` cycles: the divider advances once per 256
    /// cycles unconditionally; the counter, only while enabled, once per
    /// `step` cycles, reloading and requesting an interrupt on each wrap.
    pub open spec fn spec_run(self, ticks: u32) -> Timer {
        let acc = self.div + ticks;
        let base = Timer {
            divider: (((self.divider + acc / 256) % 256) as u8),
            div: ((acc % 256) as u32),
            ..self
        };
        if self.start {
            let total = self.cnt + ticks;
            let st = Self::tima_steps(self.counter, self.modulo, (total / self.step as int) as nat);
            Timer {
                counter: st.0,
                interrupt: self.interrupt || st.1,
                cnt: ((total % self.step as int) as u32),
                ..base
            }
        } else {
            base
        }
    }

    /// What reading each timer register returns.
    pub open spec fn spec_read(self, addr: u16) -> u8 {
        if addr == 0xff04 {
            self.divider
        } else if addr == 0xff05 {
            self.counter
        } else if addr == 0xff06 {
            self.modulo
        } else {
            ((if self.start {
                0x04u8
            } else {
                0u8
            }) | (if self.step == 16 {
                1u8
            } else if self.step == 64 {
                2u8
            } else if self.step == 128 {
                3u8
            } else {
                0u8
            }))
        }
    }

    /// The timer after a write: writing the divider address clears the
    /// divider whatever the value; the control write decodes enable and rate.
    pub open spec fn spec_write(self, addr: u16, v: u8) -> Timer {
        if addr == 0xff04 {
            Timer { divider: 0, ..self }
        } else if addr == 0xff05 {
            Timer { counter: v, ..self }
        } else if addr == 0xff06 {
            Timer { modulo: v, ..self }
        } else {
            Timer {
                start: v & 0x04 != 0,
                step: if v & 0x03 == 1 {
                    16u32
                } else if v & 0x03 == 2 {
                    64u32
                } else if v & 0x03 == 3 {
                    128u32
                } else {
                    1024u32
                },
                ..self
            }
        }
    }

    pub fn new() -> (r: Timer)
        ensures
            r == (Timer {
                divider: 0u8,
                counter: 0u8,
                modulo: 0u8,
                start: false,
                step: 1024u32,
                cnt: 0u32,
                div: 0u32,
                interrupt: false,
            }),
            r.wf(),
    {
        Timer {
            divider: 0,
            counter: 0,
            modulo: 0,
            start: false,
            step: 1024,
            cnt: 0,
            div: 0,
            interrupt: false,
        }
    }

    pub fn read_byte(&self, addr: u16) -> (r: u8)
        requires
            0xff04 <= addr <= 0xff07,
        ensures
            r == self.spec_read(addr),
    {
        match addr {
            0xff04 => self.divider,
            0xff05 => self.counter,
            0xff06 => self.modulo,
            _ => {
                (if self.start {
                    0x04
                } else {
                    0
                }) | (match self.step {
                    16 => 1,
                    64 => 2,
                    128 => 3,
                    _ => 0,
                })
            },
        }
    }

    pub fn write_byte(&mut self, addr: u16, v: u8)
        requires
            0xff04 <= addr <= 0xff07,
            old(self).wf(),
        ensures
            *final(self) == old(self).spec_write(addr, v),
            final(self).wf(),
    {
        match addr {
            0xff04 => self.divider = 0,
            0xff05 => self.counter = v,
            0xff06 => self.modulo = v,
            _ => {
                self.start = v & 0x04 != 0;
                self.step = match v & 0x03 {
                    1 => 16,
                    2 => 64,
                    3 => 128,
                    _ => 1024,
                };
            },
        }
    }

    /// Advance the timer by `ticks` cycles.
    pub fn run(&mut self, ticks: u32)
        requires
            old(self).wf(),
            ticks < 0xffff_f000,
        ensures
            *final(self) == old(self).spec_run(ticks),
            final(self).wf(),
    {
        let acc: u32 = self.div + ticks;
        let mut div: u32 = acc;
        let mut divider: u8 = self.divider;
        let ghost d0 = self.divider;
        let ghost mut k: nat = 0nat;
        while div >= 256
            invariant
                div + k * 256 == acc,
                divider == (d0 + k) % 256,
            decreases div,
        {
            divider = divider.wrapping_add(1);
            div = div - 256;
            proof {
                k = k + 1;
            }
        }
        proof {
            lemma_fundamental_div_mod_converse(acc as int, 256, k as int, div as int);
        }
        self.divider = divider;
        self.div = div;

        if self.start {
            let step: u32 = self.step;
            let total: u32 = self.cnt + ticks;
            let mut cnt: u32 = total;
            let mut counter: u8 = self.counter;
            let mut raised: bool = false;
            let ghost c0 = self.counter;
            let ghost mut j: nat = 0nat;
            while cnt >= step
                invariant
                    step == self.step,
                    self.wf(),
                    cnt + j * step == total,
                    (counter, raised) == Self::tima_steps(c0, self.modulo, j),
                decreases cnt,
            {
                counter = counter.wrapping_add(1);
                if counter == 0 {
                    counter = self.modulo;
                    raised = true;
                }
                cnt = cnt - step;
                proof {
                    assert((j + 1) * step == j * step + step) by (nonlinear_arith);
                    j = j + 1;
                }
            }
            proof {
                lemma_fundamental_div_mod_converse(total as int, step as int, j as int, cnt as int);
            }
            self.counter = counter;
            if raised {
                self.interrupt = true;
            }
            self.cnt = cnt;
        }
    }
}

} // verus!
