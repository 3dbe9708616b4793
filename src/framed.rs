//! The three parts of the framed transport (serial port, chip-select line,
//! settle delay), with one ordered record of every call made on any of them.
use vstd::prelude::*;

use crate::bus::{DelayUs, SelectPin, SpiCall, SpiPort};

verus! {

/// One call made on a part of the framed transport, with its arguments and result.
#[allow(inconsistent_fields)]
pub enum FramedCall<WE, TE, OE> {
    /// Chip select driven active (low).
    Select { result: Result<(), OE> },
    /// Chip select driven inactive (high).
    Release { result: Result<(), OE> },
    Wait { us: u8 },
    Send { words: Seq<u8>, result: Result<(), WE> },
    Exchange { sent: Seq<u8>, received: Seq<u8>, result: Result<(), TE> },
}

/// The parts of the framed transport. They are reached only through the methods
/// below, each of which makes exactly one call on one part and records it, so
/// `calls` holds every call in the order in which it was made.
pub struct FramedParts<SPI: SpiPort, CS: SelectPin, DELAY> {
    spi: SPI,
    cs: CS,
    delay: DELAY,
    calls: Ghost<Seq<FramedCall<SPI::WriteError, SPI::TransferError, CS::Error>>>,
}

impl<SPI: SpiPort, CS: SelectPin, DELAY> FramedParts<SPI, CS, DELAY> {
    /// Every call made on the parts, in order.
    pub closed spec fn calls(&self) -> Seq<
        FramedCall<SPI::WriteError, SPI::TransferError, CS::Error>,
    > {
        self.calls@
    }

    pub closed spec fn spi(&self) -> SPI {
        self.spi
    }

    pub closed spec fn cs(&self) -> CS {
        self.cs
    }

    pub closed spec fn delay(&self) -> DELAY {
        self.delay
    }

    pub fn new(spi: SPI, cs: CS, delay: DELAY) -> (r: Self)
        ensures
            r.spi() == spi,
            r.cs() == cs,
            r.delay() == delay,
            r.calls() == Seq::<FramedCall<SPI::WriteError, SPI::TransferError, CS::Error>>::empty(),
    {
        FramedParts { spi, cs, delay, calls: Ghost(Seq::empty()) }
    }

    pub fn into_parts(self) -> (r: (SPI, CS, DELAY))
        ensures
            r == (self.spi(), self.cs(), self.delay()),
    {
        (self.spi, self.cs, self.delay)
    }

    /// Drives chip select active.
    pub fn select(&mut self) -> (r: Result<(), CS::Error>)
        ensures
            final(self).calls() == old(self).calls().push(FramedCall::Select { result: r }),
            final(self).cs().edges() == old(self).cs().edges().push((false, r)),
            final(self).spi() == old(self).spi(),
            final(self).delay() == old(self).delay(),
    {
        let r = self.cs.set_low();
        self.calls = Ghost(self.calls@.push(FramedCall::Select { result: r }));
        r
    }

    /// Drives chip select inactive.
    pub fn release(&mut self) -> (r: Result<(), CS::Error>)
        ensures
            final(self).calls() == old(self).calls().push(FramedCall::Release { result: r }),
            final(self).cs().edges() == old(self).cs().edges().push((true, r)),
            final(self).spi() == old(self).spi(),
            final(self).delay() == old(self).delay(),
    {
        let r = self.cs.set_high();
        self.calls = Ghost(self.calls@.push(FramedCall::Release { result: r }));
        r
    }

    /// Sends `words` on the serial port.
    pub fn send(&mut self, words: &[u8]) -> (r: Result<(), SPI::WriteError>)
        ensures
            final(self).calls() == old(self).calls().push(
                FramedCall::Send { words: words@, result: r },
            ),
            final(self).spi().calls() == old(self).spi().calls().push(
                SpiCall::Write { words: words@, result: r },
            ),
            final(self).cs() == old(self).cs(),
            final(self).delay() == old(self).delay(),
    {
        let r = self.spi.write(words);
        self.calls = Ghost(self.calls@.push(FramedCall::Send { words: words@, result: r }));
        r
    }

    /// Full-duplex exchange on the serial port, in place.
    pub fn exchange(&mut self, words: &mut [u8]) -> (r: Result<(), SPI::TransferError>)
        ensures
            final(words)@.len() == old(words)@.len(),
            final(self).calls() == old(self).calls().push(
                FramedCall::Exchange { sent: old(words)@, received: final(words)@, result: r },
            ),
            final(self).spi().calls() == old(self).spi().calls().push(
                SpiCall::Transfer { sent: old(words)@, received: final(words)@, result: r },
            ),
            final(self).cs() == old(self).cs(),
            final(self).delay() == old(self).delay(),
    {
        let ghost sent = words@;
        let r = self.spi.transfer(words);
        self.calls = Ghost(
            self.calls@.push(FramedCall::Exchange { sent, received: words@, result: r }),
        );
        r
    }
}

impl<SPI: SpiPort, CS: SelectPin, DELAY: DelayUs> FramedParts<SPI, CS, DELAY> {
    /// Waits `us` microseconds.
    pub fn wait(&mut self, us: u8)
        ensures
            final(self).calls() == old(self).calls().push(FramedCall::Wait { us }),
            final(self).delay().waits_us() == old(self).delay().waits_us().push(us),
            final(self).spi() == old(self).spi(),
            final(self).cs() == old(self).cs(),
    {
        self.delay.delay_us(us);
        self.calls = Ghost(self.calls@.push(FramedCall::Wait { us }));
    }
}

} // verus!
