//! The four 16-bit hardware timers: prescaled counting, cascade mode, reload on
//! overflow and the timer interrupts.
use vstd::prelude::*;

verus! {

/// One timer.
#[derive(Debug, Clone, Copy, PartialEq, Eq, Structural)]
pub struct Timer {
    /// The counter.
    pub counter: u16,
    /// The value loaded on start and on overflow.
    pub reload: u16,
    /// The control register: prescaler in bits 0-1, cascade in bit 2, interrupt in
    /// bit 6, start in bit 7.
    pub control: u16,
    /// Cycles counted toward the next prescaled tick.
    pub prescaler_cycles: u32,
    /// Whether the timer was running at the last tick.
    pub active: bool,
}

impl Default for Timer {
    /// A stopped timer with everything zero.
    fn default() -> (t: Self)
        ensures
            t == Timer::spec_zero(),
    {
        Timer { counter: 0, reload: 0, control: 0, prescaler_cycles: 0, active: false }
    }
}

impl Timer {
    pub open spec fn spec_zero() -> Timer {
        Timer { counter: 0, reload: 0, control: 0, prescaler_cycles: 0, active: false }
    }
}

/// The prescaler: CPU cycles per tick.
pub open spec fn prescaler_limit(control: u16) -> u32 {
    let sel = control & 3;
    if sel == 0 { 1 } else if sel == 1 { 64 } else if sel == 2 { 256 } else { 1024 }
}

/// IO memory with interrupt flag `bit` set in IF (0x202-0x203).
pub open spec fn raise_if(io: Seq<u8>, bit: u16) -> Seq<u8> {
    let current = (io[0x202] as u16) | ((io[0x203] as u16) << 8u16);
    let new_if = current | (1u16 << bit);
    io.update(0x202, new_if as u8).update(0x203, (new_if >> 8u16) as u8)
}

/// Timer `i` after `cycles` cycles, given whether the timer before it overflowed in
/// this tick: the timer, the IO memory, and whether it overflowed.
pub open spec fn tick_timer(t: Timer, i: int, cycles: u32, prev_overflow: bool, io: Seq<u8>) -> (Timer, Seq<u8>, bool) {
    let started = t.control & 0x80 != 0;
    let cascade = i > 0 && t.control & 0x04 != 0;
    if !started {
        (Timer { active: false, ..t }, io, false)
    } else {
        let t1 = if !t.active { Timer { counter: t.reload, prescaler_cycles: 0, active: true, ..t } } else { t };
        let limit = prescaler_limit(t1.control);
        let (ticks, t2) = if cascade {
            ((if prev_overflow { 1u32 } else { 0u32 }), t1)
        } else {
            let pc = (t1.prescaler_cycles + cycles) as u32;
            ((pc / limit) as u32, Timer { prescaler_cycles: (pc % limit) as u32, ..t1 })
        };
        if ticks > 0 {
            let old_counter = t2.counter;
            let sum = old_counter + (ticks as u16);
            if sum > 0xFFFF {
                let t3 = Timer { counter: t2.reload.wrapping_add((ticks - 1) as u16), ..t2 };
                let io2 = if t3.control & 0x40 != 0 { raise_if(io, (3 + i) as u16) } else { io };
                (t3, io2, true)
            } else {
                (Timer { counter: sum as u16, ..t2 }, io, false)
            }
        } else {
            (t2, io, false)
        }
    }
}

/// Timers `i` and up after `cycles` cycles, timer `i - 1` having overflowed or not.
pub open spec fn tick_from(timers: Seq<Timer>, i: int, cycles: u32, prev_overflow: bool, io: Seq<u8>) -> (Seq<Timer>, Seq<u8>)
    decreases 4 - i,
{
    if i >= 4 || i < 0 {
        (timers, io)
    } else {
        let (t, io2, ovf) = tick_timer(timers[i], i, cycles, prev_overflow, io);
        tick_from(timers.update(i, t), i + 1, cycles, ovf, io2)
    }
}

/// The four timers.
#[derive(Debug, Clone)]
pub struct Timers {
    pub timers: [Timer; 4],
}

impl Timers {
    pub open spec fn wf(&self) -> bool {
        forall|i: int| 0 <= i < 4 ==> #[trigger] self.timers@[i].prescaler_cycles < 1024
    }

    /// Four stopped timers.
    pub fn new() -> (t: Self)
        ensures
            t.timers@ == Seq::new(4, |i: int| Timer::spec_zero()),
            t.wf(),
    {
        let t = Timers { timers: [Timer::default(), Timer::default(), Timer::default(), Timer::default()] };
        assert(t.timers@ =~= Seq::new(4, |i: int| Timer::spec_zero()));
        t
    }

    /// Runs the timers for `cycles` CPU cycles, in order so that a cascading timer counts
    /// the overflows of the one before it, setting the interrupt flags of those that
    /// overflow with their interrupt enabled.
    pub fn tick(&mut self, cycles: u32, io: &mut [u8; 0x400])
        requires
            old(self).wf(),
            cycles <= u32::MAX - 1024,
        ensures
            final(self).wf(),
            (final(self).timers@, final(io)@) == tick_from(old(self).timers@, 0, cycles, false, old(io)@),
    {
        let ghost target = tick_from(self.timers@, 0, cycles, false, io@);
        let mut prev_overflow = false;
        let mut i: usize = 0;
        while i < 4
            invariant
                i <= 4,
                self.wf(),
                cycles <= u32::MAX - 1024,
                tick_from(self.timers@, i as int, cycles, prev_overflow, io@) == target,
            decreases 4 - i,
        {
            let ghost before = (self.timers@, io@);
            let mut t = self.timers[i];
            let started = (t.control & 0x80) != 0;
            let cascade = i > 0 && (t.control & 0x04) != 0;
            let mut overflowed = false;
            if !started {
                t.active = false;
            } else {
                if !t.active {
                    t.counter = t.reload;
                    t.prescaler_cycles = 0;
                    t.active = true;
                }
                let mut ticks: u32 = 0;
                if cascade {
                    if prev_overflow {
                        ticks = 1;
                    }
                } else {
                    let sel = t.control & 3;
                    let limit: u32 = if sel == 0 { 1 } else if sel == 1 { 64 } else if sel == 2 { 256 } else { 1024 };
                    t.prescaler_cycles = t.prescaler_cycles + cycles;
                    ticks = t.prescaler_cycles / limit;
                    t.prescaler_cycles = t.prescaler_cycles % limit;
                }
                if ticks > 0 {
                    let old_counter = t.counter;
                    let t16 = ticks as u16;
                    if old_counter as u32 + t16 as u32 > 0xFFFF {
                        t.counter = t.reload.wrapping_add((ticks - 1) as u16);
                        overflowed = true;
                        if (t.control & 0x40) != 0 {
                            let bit: u16 = 3 + i as u16;
                            let current_if = (io[0x202] as u16) | ((io[0x203] as u16) << 8u16);
                            let new_if = current_if | (1u16 << bit);
                            io[0x202] = new_if as u8;
                            io[0x203] = (new_if >> 8u16) as u8;
                        }
                    } else {
                        t.counter = old_counter + t16;
                    }
                }
            }
            self.timers[i] = t;
            prev_overflow = overflowed;
            i = i + 1;
        }
    }
}

} // verus!
