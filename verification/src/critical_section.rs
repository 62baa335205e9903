//! The critical-section core: a bounded region during which interrupt
//! delivery is suppressed so that shared state can be read and written
//! without an interrupt handler running in between.
//!
//! Entry captures the current mask and raises it to the top; exit restores
//! exactly the captured value.  A nested entry therefore captures the
//! already-raised mask, so only the outermost pair changes what the
//! hardware observes.

use vstd::prelude::*;

use crate::interrupt;
use crate::interrupt::Cpu;
use crate::valid_mask;

verus! {

/// The interrupt mask captured at critical-section entry.
///
/// The token has no `Clone` and no `Copy`: releasing consumes it, so each
/// capture is restored exactly once and sections cannot share a token.
pub struct RestoreToken {
    mask: u8,
}

impl RestoreToken {
    /// The captured interrupt-priority threshold.
    pub closed spec fn spec_mask(self) -> u8 {
        self.mask
    }

    /// A token only ever holds a mask the hardware could report.
    #[verifier::type_invariant]
    closed spec fn wf(self) -> bool {
        valid_mask(self.mask)
    }
}

/// The single-core critical-section discipline over the interrupt mask.
pub struct M68kCriticalSection;

impl M68kCriticalSection {
    /// Enter a critical section: capture the current mask, then block all
    /// maskable interrupts.  The returned token holds the captured mask.
    pub fn acquire(cpu: &mut Cpu) -> (token: RestoreToken)
        ensures
            token.spec_mask() == old(cpu).spec_mask(),
            valid_mask(token.spec_mask()),
            final(cpu).spec_mask() == 7,
            final(cpu).spec_sr() == old(cpu).spec_sr() | 0x0700,
    {
        let current_mask = interrupt::get(cpu);
        interrupt::disable(cpu);
        RestoreToken { mask: current_mask }
    }

    /// Leave a critical section, restoring the mask captured at the
    /// matching entry.  Bits outside the mask field are untouched.
    pub fn release(cpu: &mut Cpu, token: RestoreToken)
        ensures
            final(cpu).spec_mask() == token.spec_mask(),
            final(cpu).spec_sr() & 0xF8FF == old(cpu).spec_sr() & 0xF8FF,
    {
        proof {
            use_type_invariant(&token);
        }
        interrupt::set(cpu, token.mask);
    }
}

/// Any chain of nested critical sections restores the status register to
/// its value immediately before the outermost entry, whatever the depth.
pub fn nested_sections(cpu: &mut Cpu, depth: u32)
    ensures
        final(cpu).spec_sr() == old(cpu).spec_sr(),
    decreases depth,
{
    let ghost s0: u16 = cpu.spec_sr();
    let token = M68kCriticalSection::acquire(cpu);
    if depth > 0 {
        nested_sections(cpu, depth - 1);
    }
    M68kCriticalSection::release(cpu, token);
    proof {
        let s1 = cpu.spec_sr();
        assert((s0 | 0x0700) & 0xF8FF == s0 & 0xF8FF) by (bit_vector);
        assert(s1 & 0xF8FF == s0 & 0xF8FF && ((s1 >> 8) & 0x07) as u8 == ((s0 >> 8) & 0x07) as u8
            ==> s1 == s0) by (bit_vector);
    }
}

/// A single-core machine sharing one counter between the main thread of
/// control and an interrupt handler.
///
/// The interrupt source holds a number of pending increments it still
/// wants to perform; hardware delivers one whenever the source's priority
/// exceeds the current mask, and the handler then runs to completion.
/// `poll` is the delivery point the hardware would reach between any two
/// instructions of the main thread.
pub struct Machine {
    cpu: Cpu,
    counter: u32,
    irq_pending: u32,
    irq_done: u32,
    irq_level: u8,
}

impl Machine {
    /// The core's status-register handle.
    pub closed spec fn spec_cpu(self) -> Cpu {
        self.cpu
    }

    /// The shared counter.
    pub closed spec fn spec_counter(self) -> u32 {
        self.counter
    }

    /// Increments the interrupt source still wants to perform.
    pub closed spec fn spec_irq_pending(self) -> u32 {
        self.irq_pending
    }

    /// Handler invocations that have run to completion.
    pub closed spec fn spec_irq_done(self) -> u32 {
        self.irq_done
    }

    /// The interrupt source's priority level.
    pub closed spec fn spec_irq_level(self) -> u8 {
        self.irq_level
    }

    /// The machine's invariant: a maskable priority level, and headroom in
    /// the counters for every increment still outstanding.
    pub open spec fn wf(self) -> bool {
        &&& 1 <= self.spec_irq_level() <= 6
        &&& self.spec_counter() + self.spec_irq_pending() <= u32::MAX
        &&& self.spec_irq_done() + self.spec_irq_pending() <= u32::MAX
    }

    /// Builds a machine with a quiet interrupt history.
    pub fn new(cpu: Cpu, counter: u32, irq_pending: u32, irq_level: u8) -> (m: Machine)
        requires
            1 <= irq_level <= 6,
            counter + irq_pending <= u32::MAX,
        ensures
            m.wf(),
            m.spec_cpu() == cpu,
            m.spec_counter() == counter,
            m.spec_irq_pending() == irq_pending,
            m.spec_irq_done() == 0,
            m.spec_irq_level() == irq_level,
    {
        Machine { cpu, counter, irq_pending, irq_done: 0, irq_level }
    }

    /// Read the shared counter.
    pub fn counter(&self) -> (v: u32)
        ensures
            v == self.spec_counter(),
    {
        self.counter
    }

    /// How many handler invocations have completed.
    pub fn irq_done(&self) -> (v: u32)
        ensures
            v == self.spec_irq_done(),
    {
        self.irq_done
    }

    /// How many increments the interrupt source still wants to perform.
    pub fn irq_pending(&self) -> (v: u32)
        ensures
            v == self.spec_irq_pending(),
    {
        self.irq_pending
    }

    /// An interrupt-delivery point.  A pending interrupt whose priority
    /// exceeds the current mask runs its handler, which performs one
    /// complete increment of the shared counter; otherwise nothing
    /// happens.
    pub fn poll(&mut self)
        requires
            old(self).wf(),
        ensures
            final(self).wf(),
            final(self).spec_cpu() == old(self).spec_cpu(),
            final(self).spec_irq_level() == old(self).spec_irq_level(),
            final(self).spec_counter() + final(self).spec_irq_pending() == old(self).spec_counter() + old(self).spec_irq_pending(),
            final(self).spec_irq_done() + final(self).spec_irq_pending() == old(self).spec_irq_done() + old(self).spec_irq_pending(),
            final(self).spec_counter() == old(self).spec_counter() + (final(self).spec_irq_done()
                - old(self).spec_irq_done()),
            old(self).spec_irq_level() <= old(self).spec_cpu().spec_mask() ==> *final(self) == *old(self),
    {
        if self.irq_pending > 0 && self.irq_level > interrupt::get(&self.cpu) {
            self.counter = self.counter + 1;
            self.irq_pending = self.irq_pending - 1;
            self.irq_done = self.irq_done + 1;
        }
    }

    /// A read-modify-write of the shared counter guarded by a critical
    /// section, with an interrupt-delivery point between every step.
    ///
    /// No update is lost: the counter grows by exactly one for the main
    /// thread's operation plus one for each handler invocation that
    /// completed, and the status register is exactly restored.
    pub fn locked_increment(&mut self)
        requires
            old(self).wf(),
            old(self).spec_counter() + old(self).spec_irq_pending() < u32::MAX,
        ensures
            final(self).wf(),
            final(self).spec_counter() == old(self).spec_counter() + 1 + (final(self).spec_irq_done() - old(self).spec_irq_done()),
            final(self).spec_irq_done() + final(self).spec_irq_pending() == old(self).spec_irq_done() + old(self).spec_irq_pending(),
            final(self).spec_cpu().spec_sr() == old(self).spec_cpu().spec_sr(),
            final(self).spec_irq_level() == old(self).spec_irq_level(),
    {
        let ghost s0: u16 = self.cpu.spec_sr();
        self.poll();
        let token = M68kCriticalSection::acquire(&mut self.cpu);
        self.poll();
        let v = self.counter;
        self.poll();
        self.counter = v + 1;
        self.poll();
        M68kCriticalSection::release(&mut self.cpu, token);
        self.poll();
        proof {
            let s1 = self.cpu.spec_sr();
            assert((s0 | 0x0700) & 0xF8FF == s0 & 0xF8FF) by (bit_vector);
            assert(s1 & 0xF8FF == s0 & 0xF8FF && ((s1 >> 8) & 0x07) as u8 == ((s0 >> 8) & 0x07)
                as u8 ==> s1 == s0) by (bit_vector);
        }
    }
}

} // verus!
