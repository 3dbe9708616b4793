//! The register access contract and its two transports: a framed serial bus
//! with a chip-select line, and an addressed two-wire bus.
use vstd::prelude::*;

use crate::framed::{FramedCall, FramedParts};
use crate::registers::Register;

verus! {

/// Errors of the framed transport, one variant per phase of a transaction.
#[derive(Debug)]
pub enum SpiError<WE, TE, OE> {
    WriteError(WE),
    TransferError(TE),
    OutputPinError(OE),
}


/// One call made on a serial port, with its arguments and result.
#[allow(inconsistent_fields)]
pub enum SpiCall<WE, TE> {
    Write { words: Seq<u8>, result: Result<(), WE> },
    Transfer { sent: Seq<u8>, received: Seq<u8>, result: Result<(), TE> },
}

/// One call made on a two-wire port, with its arguments and result.
pub enum I2cCall<E> {
    Write { address: u8, bytes: Seq<u8>, result: Result<(), E> },
    WriteRead { address: u8, bytes: Seq<u8>, received: Seq<u8>, result: Result<(), E> },
}

/// One register transaction, with its result; a read's result holds the bytes read.
#[allow(inconsistent_fields)]
pub enum Access<E> {
    Write { reg: Register, value: u8, result: Result<(), E> },
    Read { reg: Register, result: Result<Seq<u8>, E> },
}

/// Blocking serial port of the framed transport.
///
/// The views below (`calls` here, `edges`, `waits_us`, `waits_ms` and `history`
/// on the other traits) record every call in order. Their default bodies only
/// serve implementations that are not verified: verified code never sees them
/// for a generic implementation.
pub trait SpiPort {
    type WriteError;

    type TransferError;

    /// Every call made on the port, in order.
    open spec fn calls(&self) -> Seq<SpiCall<Self::WriteError, Self::TransferError>> {
        Seq::empty()
    }

    /// Sends `words`, discarding what comes back.
    fn write(&mut self, words: &[u8]) -> (r: Result<(), Self::WriteError>)
        ensures
            final(self).calls() == old(self).calls().push(
                SpiCall::Write { words: words@, result: r },
            ),
    ;

    /// Full-duplex exchange: sends `words` and replaces them, in place, with what was received.
    fn transfer(&mut self, words: &mut [u8]) -> (r: Result<(), Self::TransferError>)
        ensures
            final(words)@.len() == old(words)@.len(),
            final(self).calls() == old(self).calls().push(
                SpiCall::Transfer { sent: old(words)@, received: final(words)@, result: r },
            ),
    ;
}

/// Chip-select line of the framed transport (active low).
pub trait SelectPin {
    type Error;

    /// Every level driven, in order (`true` for high), with its result.
    open spec fn edges(&self) -> Seq<(bool, Result<(), Self::Error>)> {
        Seq::empty()
    }

    fn set_low(&mut self) -> (r: Result<(), Self::Error>)
        ensures
            final(self).edges() == old(self).edges().push((false, r)),
    ;

    fn set_high(&mut self) -> (r: Result<(), Self::Error>)
        ensures
            final(self).edges() == old(self).edges().push((true, r)),
    ;
}

/// Microsecond delay.
pub trait DelayUs {
    /// Every wait, in order, in microseconds.
    open spec fn waits_us(&self) -> Seq<u8> {
        Seq::empty()
    }

    fn delay_us(&mut self, us: u8)
        ensures
            final(self).waits_us() == old(self).waits_us().push(us),
    ;
}

/// Millisecond delay.
pub trait DelayMs {
    /// Every wait, in order, in milliseconds.
    open spec fn waits_ms(&self) -> Seq<u8> {
        Seq::empty()
    }

    fn delay_ms(&mut self, ms: u8)
        ensures
            final(self).waits_ms() == old(self).waits_ms().push(ms),
    ;
}

/// Blocking port of the addressed transport.
pub trait I2cPort {
    type Error;

    /// Every call made on the port, in order.
    open spec fn calls(&self) -> Seq<I2cCall<Self::Error>> {
        Seq::empty()
    }

    /// Sends `bytes` to the device at `address`.
    fn write(&mut self, address: u8, bytes: &[u8]) -> (r: Result<(), Self::Error>)
        ensures
            final(self).calls() == old(self).calls().push(
                I2cCall::Write { address, bytes: bytes@, result: r },
            ),
    ;

    /// Sends `bytes` to the device at `address`, then fills `buffer` from it.
    fn write_read(&mut self, address: u8, bytes: &[u8], buffer: &mut [u8]) -> (r: Result<
        (),
        Self::Error,
    >)
        ensures
            final(buffer)@.len() == old(buffer)@.len(),
            final(self).calls() == old(self).calls().push(
                I2cCall::WriteRead { address, bytes: bytes@, received: final(buffer)@, result: r },
            ),
    ;
}

/// What a one-byte read returned, as a read transaction's result.
pub open spec fn byte_result<E>(r: Result<u8, E>) -> Result<Seq<u8>, E> {
    match r {
        Ok(v) => Ok(seq![v]),
        Err(e) => Err(e),
    }
}

/// What a burst read into a buffer now holding `data` returned, as a read
/// transaction's result.
pub open spec fn burst_result<E>(r: Result<(), E>, data: Seq<u8>) -> Result<Seq<u8>, E> {
    match r {
        Ok(_) => Ok(data),
        Err(e) => Err(e),
    }
}

/// The register access contract that the device driver is written against.
pub trait RegAccess {
    type Error;

    /// Every register transaction, in order.
    open spec fn history(&self) -> Seq<Access<Self::Error>> {
        Seq::empty()
    }

    /// Writes one byte to one register.
    fn write(&mut self, reg: Register, value: u8) -> (r: Result<(), Self::Error>)
        ensures
            final(self).history() == old(self).history().push(
                Access::Write { reg, value, result: r },
            ),
    ;

    /// Reads one register.
    fn read(&mut self, reg: Register) -> (r: Result<u8, Self::Error>)
        ensures
            final(self).history() == old(self).history().push(
                Access::Read { reg, result: byte_result(r) },
            ),
    ;

    /// Burst read of `output.len()` consecutive registers starting at `reg`.
    fn reads(&mut self, reg: Register, output: &mut [u8]) -> (r: Result<(), Self::Error>)
        ensures
            final(output)@.len() == old(output)@.len(),
            final(self).history() == old(self).history().push(
                Access::Read { reg, result: burst_result(r, final(output)@) },
            ),
    ;
}

/// The read flag set on a register address.
pub open spec fn read_address(reg: Register) -> u8 {
    (reg.spec_addr() | 0x80) as u8
}

/// The first failure of a transaction's data phase and release, if any.
pub open spec fn first_failure<WE, TE, OE>(
    data: Result<(), SpiError<WE, TE, OE>>,
    released: Result<(), OE>,
) -> Result<(), SpiError<WE, TE, OE>> {
    match data {
        Err(e) => Err(e),
        Ok(_) => match released {
            Err(e) => Err(SpiError::OutputPinError(e)),
            Ok(_) => Ok(()),
        },
    }
}

/// `r` with its success value dropped.
pub open spec fn unit_of<T, E>(r: Result<T, E>) -> Result<(), E> {
    match r {
        Ok(_) => Ok(()),
        Err(e) => Err(e),
    }
}

/// A failed send, as the framed transport reports it.
pub open spec fn send_failure<WE, TE, OE>(sent: Result<(), WE>) -> Result<(), SpiError<WE, TE, OE>> {
    match sent {
        Ok(_) => Ok(()),
        Err(e) => Err(SpiError::WriteError(e)),
    }
}

/// A failed exchange, as the framed transport reports it.
pub open spec fn exchange_failure<WE, TE, OE>(exchanged: Result<(), TE>) -> Result<
    (),
    SpiError<WE, TE, OE>,
> {
    match exchanged {
        Ok(_) => Ok(()),
        Err(e) => Err(SpiError::TransferError(e)),
    }
}

/// Framed transport: serial port, chip-select line and settle delay.
pub struct SpiBus<BUS: SpiPort, CS: SelectPin, DELAY> {
    parts: FramedParts<BUS, CS, DELAY>,
    history: Ghost<Seq<Access<SpiError<BUS::WriteError, BUS::TransferError, CS::Error>>>>,
}

impl<SPI: SpiPort, CS: SelectPin, DELAY> SpiBus<SPI, CS, DELAY> {
    /// The parts, with the ordered record of every call made on them.
    pub closed spec fn parts(&self) -> FramedParts<SPI, CS, DELAY> {
        self.parts
    }

    pub closed spec fn recorded(&self) -> Seq<Access<SpiError<SPI::WriteError, SPI::TransferError, CS::Error>>> {
        self.history@
    }

    pub fn new(spi: SPI, cs: CS, delay: DELAY) -> (r: Self)
        ensures
            r.parts().spi() == spi,
            r.parts().cs() == cs,
            r.parts().delay() == delay,
            r.parts().calls().len() == 0,
            r.recorded().len() == 0,
    {
        SpiBus { parts: FramedParts::new(spi, cs, delay), history: Ghost(Seq::empty()) }
    }

    /// Gives the transport's parts back.
    pub fn free(self) -> (r: (SPI, CS, DELAY))
        ensures
            r == (self.parts().spi(), self.parts().cs(), self.parts().delay()),
    {
        self.parts.into_parts()
    }
}

impl<SPI: SpiPort, CS: SelectPin, DELAY: DelayUs> SpiBus<SPI, CS, DELAY> {
    /// A framed register write, as calls on the parts in order: assert chip
    /// select; if that failed, nothing more, and the pin's error is returned.
    /// Otherwise wait 1 us, send `[address, value]`, release, wait 1 us, whatever
    /// the send returned; the first failure is returned, carrying the part's error.
    pub open spec fn framed_write(
        before: Self,
        after: Self,
        reg: Register,
        value: u8,
        r: Result<(), SpiError<SPI::WriteError, SPI::TransferError, CS::Error>>,
    ) -> bool {
        let c0 = before.parts().calls();
        let c1 = after.parts().calls();
        let k = c0.len() as int;
        &&& c1.len() > c0.len()
        &&& c1.take(k) == c0
        &&& (c1[k] matches FramedCall::Select { result: sel } && if sel is Err {
            c1.len() == k + 1 && r == Err::<(), SpiError<SPI::WriteError, SPI::TransferError, CS::Error>>(SpiError::OutputPinError(sel->Err_0))
        } else {
            &&& c1.len() == k + 5
            &&& c1[k + 1] == FramedCall::<SPI::WriteError, SPI::TransferError, CS::Error>::Wait {
                us: 1,
            }
            &&& (c1[k + 2] matches FramedCall::Send { words, result: sent } && words == seq![
                reg.spec_addr(),
                value,
            ] && (c1[k + 3] matches FramedCall::Release { result: released } && r
                == first_failure(send_failure::<SPI::WriteError, SPI::TransferError, CS::Error>(sent), released)))
            &&& c1[k + 4] == FramedCall::<SPI::WriteError, SPI::TransferError, CS::Error>::Wait {
                us: 1,
            }
        })
    }

    /// A framed burst read of `len` bytes, as calls on the parts in order: assert
    /// chip select; if that failed, nothing more. Otherwise wait 1 us, send the read
    /// address and, only if that succeeded, exchange `len` bytes and receive
    /// `data`; then release and wait 1 us, whatever failed. The first failure is
    /// returned, carrying the part's error.
    pub open spec fn framed_read(
        before: Self,
        after: Self,
        reg: Register,
        len: nat,
        data: Seq<u8>,
        r: Result<(), SpiError<SPI::WriteError, SPI::TransferError, CS::Error>>,
    ) -> bool {
        let c0 = before.parts().calls();
        let c1 = after.parts().calls();
        let k = c0.len() as int;
        &&& c1.len() > c0.len()
        &&& c1.take(k) == c0
        &&& (c1[k] matches FramedCall::Select { result: sel } && if sel is Err {
            c1.len() == k + 1 && r == Err::<(), SpiError<SPI::WriteError, SPI::TransferError, CS::Error>>(SpiError::OutputPinError(sel->Err_0))
        } else {
            &&& c1[k + 1] == FramedCall::<SPI::WriteError, SPI::TransferError, CS::Error>::Wait {
                us: 1,
            }
            &&& c1.last() == FramedCall::<SPI::WriteError, SPI::TransferError, CS::Error>::Wait {
                us: 1,
            }
            &&& (c1[k + 2] matches FramedCall::Send { words, result: sent } && words == seq![
                read_address(reg),
            ] && (c1[c1.len() - 2] matches FramedCall::Release { result: released } && if sent is Err {
                c1.len() == k + 5 && r == first_failure(send_failure::<SPI::WriteError, SPI::TransferError, CS::Error>(sent), released)
            } else {
                c1.len() == k + 6 && (c1[k + 3] matches FramedCall::Exchange {
                    sent: out,
                    received,
                    result: exchanged,
                } && out.len() == len && received == data && r == first_failure(
                    exchange_failure::<SPI::WriteError, SPI::TransferError, CS::Error>(exchanged),
                    released,
                ))
            }))
        })
    }

    /// What the exchange of a framed read received (empty if there was none).
    pub open spec fn exchanged(before: Self, after: Self) -> Seq<u8> {
        match after.parts().calls()[before.parts().calls().len() as int + 3] {
            FramedCall::Exchange { received, .. } => received,
            _ => Seq::empty(),
        }
    }

    /// Drives chip select active (`true`) or inactive.
    fn chip_select(&mut self, select: bool) -> (r: Result<(), SpiError<SPI::WriteError, SPI::TransferError, CS::Error>>)
        ensures
            final(self).parts().calls() == old(self).parts().calls().push(
                final(self).parts().calls().last(),
            ),
            final(self).parts().spi() == old(self).parts().spi(),
            final(self).parts().delay() == old(self).parts().delay(),
            select ==> (final(self).parts().calls().last() matches FramedCall::Select { result }
                && r == first_failure::<SPI::WriteError, SPI::TransferError, CS::Error>(Ok(()), result)),
            !select ==> (final(self).parts().calls().last() matches FramedCall::Release {
                result,
            } && r == first_failure::<SPI::WriteError, SPI::TransferError, CS::Error>(Ok(()), result)),
            final(self).recorded() == old(self).recorded(),
    {
        let res = if select {
            self.parts.select()
        } else {
            self.parts.release()
        };
        match res {
            Ok(()) => Ok(()),
            Err(e) => Err(SpiError::OutputPinError(e)),
        }
    }
}

impl<SPI: SpiPort, CS: SelectPin, DELAY: DelayUs> RegAccess for SpiBus<SPI, CS, DELAY> {
    type Error = SpiError<SPI::WriteError, SPI::TransferError, CS::Error>;

    open spec fn history(&self) -> Seq<Access<Self::Error>> {
        self.recorded()
    }

    fn write(&mut self, reg: Register, value: u8) -> (r: Result<(), Self::Error>)
        ensures
            Self::framed_write(*old(self), *final(self), reg, value, r),
    {
        let ghost c0 = self.parts.calls();
        let r = match self.chip_select(true) {
            Err(e) => Err(e),
            Ok(()) => {
                self.parts.wait(1);
                let frame = [reg.addr(), value];
                let sent = self.parts.send(frame.as_slice());
                let released = self.chip_select(false);
                self.parts.wait(1);
                proof {
                    assert(frame@ =~= seq![reg.spec_addr(), value]);
                }
                match sent {
                    Err(e) => Err(SpiError::WriteError(e)),
                    Ok(()) => released,
                }
            },
        };
        proof {
            assert(self.parts.calls().take(c0.len() as int) =~= c0);
        }
        self.history = Ghost(self.history@.push(Access::Write { reg, value, result: r }));
        r
    }

    fn read(&mut self, reg: Register) -> (r: Result<u8, Self::Error>)
        ensures
            Self::framed_read(
                *old(self),
                *final(self),
                reg,
                1,
                Self::exchanged(*old(self), *final(self)),
                unit_of(r),
            ),
            r matches Ok(v) ==> Self::exchanged(*old(self), *final(self)) == seq![v],
    {
        let mut value: Vec<u8> = vec![0u8];
        let res = self.reads(reg, value.as_mut_slice());
        match res {
            Ok(()) => {
                assert(value@ =~= seq![value[0]]);
                Ok(value[0])
            },
            Err(e) => Err(e),
        }
    }

    fn reads(&mut self, reg: Register, output: &mut [u8]) -> (r: Result<(), Self::Error>)
        ensures
            Self::framed_read(*old(self), *final(self), reg, old(output)@.len(), final(output)@, r),
            r is Ok ==> Self::exchanged(*old(self), *final(self)) == final(output)@,
    {
        let ghost c0 = self.parts.calls();
        let r = match self.chip_select(true) {
            Err(e) => Err(e),
            Ok(()) => {
                self.parts.wait(1);
                let frame = [reg.addr() | 0x80];
                let data = match self.parts.send(frame.as_slice()) {
                    Err(e) => Err(SpiError::WriteError(e)),
                    Ok(()) => match self.parts.exchange(output) {
                        Ok(()) => Ok(()),
                        Err(e) => Err(SpiError::TransferError(e)),
                    },
                };
                let released = self.chip_select(false);
                self.parts.wait(1);
                proof {
                    assert(frame@ =~= seq![read_address(reg)]);
                }
                match data {
                    Err(e) => Err(e),
                    Ok(()) => released,
                }
            },
        };
        proof {
            assert(self.parts.calls().take(c0.len() as int) =~= c0);
        }
        self.history = Ghost(
            self.history@.push(Access::Read { reg, result: burst_result(r, output@) }),
        );
        r
    }
}

/// Addressed transport: a two-wire port and the device's fixed address.
pub struct I2cBus<BUS: I2cPort, DELAY> {
    bus: BUS,
    address: u8,
    delay: DELAY,
    history: Ghost<Seq<Access<BUS::Error>>>,
}

impl<I2C: I2cPort, DELAY> I2cBus<I2C, DELAY> {
    pub closed spec fn port(&self) -> I2C {
        self.bus
    }

    pub closed spec fn address(&self) -> u8 {
        self.address
    }

    pub closed spec fn settle_delay(&self) -> DELAY {
        self.delay
    }

    pub closed spec fn recorded(&self) -> Seq<Access<I2C::Error>> {
        self.history@
    }

    pub fn i2c(i2c: I2C, address: u8, delay: DELAY) -> (r: Self)
        ensures
            r.port() == i2c,
            r.address() == address,
            r.settle_delay() == delay,
            r.recorded() == Seq::<Access<I2C::Error>>::empty(),
    {
        I2cBus { bus: i2c, address, delay, history: Ghost(Seq::empty()) }
    }

    /// Gives the port and the delay back.
    pub fn free(self) -> (r: (I2C, DELAY))
        ensures
            r == (self.port(), self.settle_delay()),
    {
        (self.bus, self.delay)
    }
}

/// What the last call of `calls` received (empty if it was no read).
pub open spec fn last_i2c_received<E>(calls: Seq<I2cCall<E>>) -> Seq<u8> {
    match calls.last() {
        I2cCall::WriteRead { received, .. } => received,
        _ => Seq::empty(),
    }
}

impl<I2C: I2cPort, DELAY> RegAccess for I2cBus<I2C, DELAY> {
    type Error = I2C::Error;

    open spec fn history(&self) -> Seq<Access<Self::Error>> {
        self.recorded()
    }

    /// One send of `[address, value]` to the device; its result is returned as it came.
    fn write(&mut self, reg: Register, value: u8) -> (r: Result<(), Self::Error>)
        ensures
            final(self).address() == old(self).address(),
            final(self).port().calls() == old(self).port().calls().push(
                I2cCall::Write {
                    address: old(self).address(),
                    bytes: seq![reg.spec_addr(), value],
                    result: r,
                },
            ),
    {
        let frame = [reg.addr(), value];
        let r = self.bus.write(self.address, frame.as_slice());
        proof {
            assert(frame@ =~= seq![reg.spec_addr(), value]);
        }
        self.history = Ghost(self.history@.push(Access::Write { reg, value, result: r }));
        r
    }

    fn read(&mut self, reg: Register) -> (r: Result<u8, Self::Error>)
        ensures
            final(self).address() == old(self).address(),
            final(self).port().calls() == old(self).port().calls().push(
                final(self).port().calls().last(),
            ),
            (final(self).port().calls().last() matches I2cCall::WriteRead {
                address,
                bytes,
                received,
                result,
            } && address == old(self).address() && bytes == seq![read_address(reg)]
                && received.len() == 1 && (result is Ok <==> r is Ok) && (r matches Ok(v)
                ==> received == seq![v]) && (r matches Err(e) ==> result == Err::<
                (),
                I2C::Error,
            >(e))),
    {
        let mut value: Vec<u8> = vec![0u8];
        let res = self.reads(reg, value.as_mut_slice());
        match res {
            Ok(()) => {
                assert(value@ =~= seq![value[0]]);
                Ok(value[0])
            },
            Err(e) => Err(e),
        }
    }

    /// One write-then-read of the read address into `output`; its result is
    /// returned as it came.
    fn reads(&mut self, reg: Register, output: &mut [u8]) -> (r: Result<(), Self::Error>)
        ensures
            final(self).address() == old(self).address(),
            final(self).port().calls() == old(self).port().calls().push(
                I2cCall::WriteRead {
                    address: old(self).address(),
                    bytes: seq![read_address(reg)],
                    received: final(output)@,
                    result: r,
                },
            ),
    {
        let frame = [reg.addr() | 0x80];
        let r = self.bus.write_read(self.address, frame.as_slice(), output);
        proof {
            assert(frame@ =~= seq![read_address(reg)]);
        }
        self.history = Ghost(
            self.history@.push(Access::Read { reg, result: burst_result(r, output@) }),
        );
        r
    }
}

} // verus!
