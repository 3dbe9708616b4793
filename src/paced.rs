//! A register transport together with an ordered record of its transactions and
//! of the pauses made between them.
use vstd::prelude::*;

use crate::bus::{burst_result, byte_result, Access, DelayMs, RegAccess};
use crate::registers::Register;

verus! {

/// One step of the driver's work: a register transaction or a pause.
pub enum Step<E> {
    Transaction(Access<E>),
    Pause { ms: u8 },
}

/// The transport, reached only through the methods below; each makes exactly one
/// call (on the transport or on a delay) and records it, so `steps` holds the
/// transactions and pauses in the order in which they were made.
pub struct Paced<BUS: RegAccess> {
    bus: BUS,
    steps: Ghost<Seq<Step<BUS::Error>>>,
}

impl<BUS: RegAccess> Paced<BUS> {
    /// Every transaction and pause made through this value, in order.
    pub closed spec fn steps(&self) -> Seq<Step<BUS::Error>> {
        self.steps@
    }

    pub closed spec fn inner(&self) -> BUS {
        self.bus
    }

    pub fn new(bus: BUS) -> (r: Self)
        ensures
            r.inner() == bus,
            r.steps().len() == 0,
    {
        Paced { bus, steps: Ghost(Seq::empty()) }
    }

    pub fn into_inner(self) -> (r: BUS)
        ensures
            r == self.inner(),
    {
        self.bus
    }

    pub fn write(&mut self, reg: Register, value: u8) -> (r: Result<(), BUS::Error>)
        ensures
            final(self).inner().history() == old(self).inner().history().push(
                Access::Write { reg, value, result: r },
            ),
            final(self).steps() == old(self).steps().push(
                Step::Transaction(Access::Write { reg, value, result: r }),
            ),
    {
        let r = self.bus.write(reg, value);
        self.steps = Ghost(
            self.steps@.push(Step::Transaction(Access::Write { reg, value, result: r })),
        );
        r
    }

    pub fn read(&mut self, reg: Register) -> (r: Result<u8, BUS::Error>)
        ensures
            final(self).inner().history() == old(self).inner().history().push(
                Access::Read { reg, result: byte_result(r) },
            ),
            final(self).steps() == old(self).steps().push(
                Step::Transaction(Access::Read { reg, result: byte_result(r) }),
            ),
    {
        let r = self.bus.read(reg);
        self.steps = Ghost(
            self.steps@.push(Step::Transaction(Access::Read { reg, result: byte_result(r) })),
        );
        r
    }

    pub fn reads(&mut self, reg: Register, output: &mut [u8]) -> (r: Result<(), BUS::Error>)
        ensures
            final(output)@.len() == old(output)@.len(),
            final(self).inner().history() == old(self).inner().history().push(
                Access::Read { reg, result: burst_result(r, final(output)@) },
            ),
            final(self).steps() == old(self).steps().push(
                Step::Transaction(Access::Read { reg, result: burst_result(r, final(output)@) }),
            ),
    {
        let r = self.bus.reads(reg, output);
        self.steps = Ghost(
            self.steps@.push(
                Step::Transaction(Access::Read { reg, result: burst_result(r, output@) }),
            ),
        );
        r
    }

    /// Waits `ms` milliseconds on `delay`.
    pub fn pause<D: DelayMs>(&mut self, delay: &mut D, ms: u8)
        ensures
            final(delay).waits_ms() == old(delay).waits_ms().push(ms),
            final(self).inner() == old(self).inner(),
            final(self).steps() == old(self).steps().push(Step::Pause { ms }),
    {
        delay.delay_ms(ms);
        self.steps = Ghost(self.steps@.push(Step::Pause { ms }));
    }
}

} // verus!
