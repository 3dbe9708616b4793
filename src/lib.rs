//! Register-level driver for a six-axis inertial measurement chip.
use vstd::prelude::*;

pub mod bus;
pub mod field;
pub mod framed;
pub mod measurement;
pub mod paced;
pub mod registers;

use bus::{burst_result, byte_result, Access, DelayMs, RegAccess};
use field::{update_field, with_field};
pub use measurement::{Acceleration, Gyro, Temperature};
use measurement::sample_at;
use paced::{Paced, Step};
use vstd::slice::slice_subrange;
use registers::{
    product_of,
    AccelerometerRange,
    GyroRange,
    PowerManagement1,
    ProductId,
    Register,
    SignalPathReset,
};

verus! {

/// Options of the interrupt pin configuration register.
#[derive(Clone, Copy, Debug, PartialEq, Eq, Structural)]
pub enum IntPinConfig {
    IntReadClear,
}

impl IntPinConfig {
    pub open spec fn spec_bit(self) -> u8 {
        match self {
            IntPinConfig::IntReadClear => 4,
        }
    }

    /// Bit position of the option.
    pub fn bit(self) -> (r: u8)
        ensures
            r == self.spec_bit(),
    {
        match self {
            IntPinConfig::IntReadClear => 4,
        }
    }
}

/// Interrupt sources.
#[derive(Clone, Copy, Debug, PartialEq, Eq, Structural)]
pub enum Interrupt {
    DataReady,
}

impl Interrupt {
    pub open spec fn spec_bit(self) -> u8 {
        match self {
            Interrupt::DataReady => 0,
        }
    }

    /// Bit position of the source's enable flag.
    pub fn bit(self) -> (r: u8)
        ensures
            r == self.spec_bit(),
    {
        match self {
            Interrupt::DataReady => 0,
        }
    }
}

/// Clock sources of the chip.
#[derive(Clone, Copy, Debug, PartialEq, Eq, Structural)]
pub enum ClockSource {
    Internal,
    PLLGyroX,
    PLLGyroY,
    PLLGyroZ,
    PLLExternal32_768KHz,
    PLLExternal19_2MHz,
    Stop,
}

impl ClockSource {
    pub open spec fn spec_code(self) -> u8 {
        match self {
            ClockSource::Internal => 0,
            ClockSource::PLLGyroX => 1,
            ClockSource::PLLGyroY => 2,
            ClockSource::PLLGyroZ => 3,
            ClockSource::PLLExternal32_768KHz => 4,
            ClockSource::PLLExternal19_2MHz => 5,
            ClockSource::Stop => 7,
        }
    }

    /// The source's code in the clock select field.
    pub fn code(self) -> (r: u8)
        ensures
            r == self.spec_code(),
    {
        match self {
            ClockSource::Internal => 0,
            ClockSource::PLLGyroX => 1,
            ClockSource::PLLGyroY => 2,
            ClockSource::PLLGyroZ => 3,
            ClockSource::PLLExternal32_768KHz => 4,
            ClockSource::PLLExternal19_2MHz => 5,
            ClockSource::Stop => 7,
        }
    }
}

/// Which streams the FIFO buffer records.
#[derive(Clone, Copy, Debug, Default, PartialEq, Eq, Structural)]
pub struct FifoEnable {
    pub temperature: bool,
    pub x_g_force: bool,
    pub y_g_force: bool,
    pub z_g_force: bool,
    pub acceleration: bool,
    pub slave2: bool,
    pub slave1: bool,
    pub slave0: bool,
}

/// `weight` if `b` is set, else zero.
pub open spec fn flag(b: bool, weight: int) -> int {
    if b {
        weight
    } else {
        0
    }
}

/// The FIFO enable register's value: one flag per bit, temperature at bit 7
/// down to slave 0 at bit 0.
pub open spec fn fifo_byte(f: FifoEnable) -> u8 {
    (flag(f.temperature, 128) + flag(f.x_g_force, 64) + flag(f.y_g_force, 32) + flag(
        f.z_g_force,
        16,
    ) + flag(f.acceleration, 8) + flag(f.slave2, 4) + flag(f.slave1, 2) + flag(f.slave0, 1)) as u8
}

impl From<FifoEnable> for u8 {
    fn from(f: FifoEnable) -> (r: u8) {
        let mut v: u8 = 0;
        if f.temperature {
            v = v + 128;
        }
        if f.x_g_force {
            v = v + 64;
        }
        if f.y_g_force {
            v = v + 32;
        }
        if f.z_g_force {
            v = v + 16;
        }
        if f.acceleration {
            v = v + 8;
        }
        if f.slave2 {
            v = v + 4;
        }
        if f.slave1 {
            v = v + 2;
        }
        if f.slave0 {
            v = v + 1;
        }
        v
    }
}

impl vstd::std_specs::convert::FromSpecImpl<FifoEnable> for u8 {
    open spec fn obeys_from_spec() -> bool {
        true
    }

    open spec fn from_spec(f: FifoEnable) -> u8 {
        fifo_byte(f)
    }
}

/// The transactions of one bit-field edit of `reg`: a read and, only if it
/// succeeded with byte `v`, one write of `with_field(v, ..)`. The edit returns the
/// failed read's error, or the write's result.
pub open spec fn field_edit<E>(
    before: Seq<Access<E>>,
    after: Seq<Access<E>>,
    reg: Register,
    offset: u8,
    width: u8,
    bits: u8,
    r: Result<(), E>,
) -> bool {
    ||| (r is Err && after == before.push(
        Access::Read { reg, result: Err(r->Err_0) },
    ))
    ||| exists|v: u8|
        after == before.push(#[trigger] byte_read(reg, v)).push(
            Access::Write { reg, value: with_field(v, offset, width, bits), result: r },
        )
}

/// Whether `a` is a read of `reg`.
pub open spec fn reads_register<E>(a: Access<E>, reg: Register) -> bool {
    match a {
        Access::Read { reg: r, .. } => r == reg,
        _ => false,
    }
}

/// Whether `a` is a write of `reg`.
pub open spec fn writes_register<E>(a: Access<E>, reg: Register) -> bool {
    match a {
        Access::Write { reg: r, .. } => r == reg,
        _ => false,
    }
}

/// A bit-field edit adds exactly one read transaction, of the edited register,
/// followed by at most one more transaction: a write of that register.
pub proof fn lemma_field_edit_reads_once<E>(
    before: Seq<Access<E>>,
    after: Seq<Access<E>>,
    reg: Register,
    offset: u8,
    width: u8,
    bits: u8,
    r: Result<(), E>,
)
    requires
        field_edit(before, after, reg, offset, width, bits, r),
    ensures
        after.take(before.len() as int) == before,
        before.len() + 1 <= after.len() <= before.len() + 2,
        reads_register(after[before.len() as int], reg),
        after.len() == before.len() + 2 ==> writes_register(after[before.len() as int + 1], reg),
{
    assert(after.take(before.len() as int) =~= before);
}

/// Divider written for `rate` hertz: the base clock is 1 kHz with the digital
/// low-pass filter enabled, 8 kHz without.
pub open spec fn sample_rate_divider(dlpf_enabled: bool, rate: u16) -> u8 {
    let base: int = if dlpf_enabled {
        1000
    } else {
        8000
    };
    ((base / rate as int - 1) % 256) as u8
}

/// The filter counts as enabled for settings 1 through 6.
pub open spec fn dlpf_active(value: u8) -> bool {
    0 < value && value < 7
}

/// A successful one-byte read of `reg` that returned `v`.
pub open spec fn byte_read<E>(reg: Register, v: u8) -> Access<E> {
    Access::Read { reg, result: Ok(seq![v]) }
}

/// Whether `a` is a successful write of `value` to `reg`.
pub open spec fn write_succeeded<E>(a: Access<E>, reg: Register, value: u8) -> bool {
    match a {
        Access::Write { reg: rg, value: v, result } => rg == reg && v == value && result is Ok,
        _ => false,
    }
}

/// The transactions of `verify`: the identity register is read; only if it holds
/// `expected` is the product id read too; the answer is whether both match, and
/// a failed read's error is returned.
pub open spec fn identity_check<E>(
    before: Seq<Access<E>>,
    after: Seq<Access<E>>,
    expected: u8,
    r: Result<bool, E>,
) -> bool {
    let who_read = byte_read::<E>(Register::WhoAmI, expected);
    ||| (r is Err && after == before.push(
        Access::Read { reg: Register::WhoAmI, result: Err(r->Err_0) },
    ))
    ||| exists|who: u8|
        who != expected && after == before.push(#[trigger] byte_read(Register::WhoAmI, who))
            && r == Ok::<bool, E>(false)
    ||| (r is Err && after == before.push(who_read).push(
        Access::Read { reg: Register::ProductId, result: Err(r->Err_0) },
    ))
    ||| exists|pid: u8|
        after == before.push(who_read).push(#[trigger] byte_read(Register::ProductId, pid)) && r
            == Ok::<bool, E>(product_of(pid) != ProductId::Unknown)
}

/// What the last transaction of `log` read (empty if it was no successful read).
pub open spec fn last_read<E>(log: Seq<Access<E>>) -> Seq<u8> {
    match log.last() {
        Access::Read { result: Ok(data), .. } => data,
        _ => Seq::empty(),
    }
}

/// Sample `k` of what the last transaction of `log` read.
pub open spec fn read_sample<E>(log: Seq<Access<E>>, k: int) -> int {
    sample_at(last_read(log), k)
}

/// One burst read of `reg`: it delivered `n` bytes, which are `last_read(after)`,
/// or it failed with the error that `err` holds.
pub open spec fn burst_read<E>(
    before: Seq<Access<E>>,
    after: Seq<Access<E>>,
    reg: Register,
    n: nat,
    err: Option<E>,
) -> bool {
    match err {
        None => last_read(after).len() == n && after == before.push(
            Access::Read { reg, result: Ok(last_read(after)) },
        ),
        Some(e) => after == before.push(Access::Read { reg, result: Err(e) }),
    }
}

/// The error of `r`, if it failed.
pub open spec fn err_of<T, E>(r: Result<T, E>) -> Option<E> {
    match r {
        Ok(_) => None,
        Err(e) => Some(e),
    }
}

/// Driver for one chip, owning its transport.
pub struct MPU6000<BUS: RegAccess> {
    bus: Paced<BUS>,
    dlpf_enabled: bool,
    whoami: u8,
}

impl<BUS: RegAccess> MPU6000<BUS> {
    pub closed spec fn dlpf(&self) -> bool {
        self.dlpf_enabled
    }

    /// The identity that `verify` expects.
    pub closed spec fn identity(&self) -> u8 {
        self.whoami
    }

    pub closed spec fn transport(&self) -> BUS {
        self.bus.inner()
    }

    /// Every register transaction and pause made by the driver, in order.
    pub closed spec fn steps(&self) -> Seq<Step<BUS::Error>> {
        self.bus.steps()
    }

    /// Gives the transport back, without any transaction.
    pub fn free(self) -> (r: BUS)
        ensures
            r == self.transport(),
    {
        self.bus.into_inner()
    }
}

impl<BUS: RegAccess> MPU6000<BUS> {
    pub fn new(bus: BUS) -> (r: Self)
        ensures
            r.transport() == bus,
            !r.dlpf(),
            r.identity() == 0x68,
            r.steps().len() == 0,
    {
        MPU6000 { bus: Paced::new(bus), dlpf_enabled: false, whoami: 0x68 }
    }

    /// Every register transaction that the transport has made.
    pub open spec fn history(&self) -> Seq<Access<BUS::Error>> {
        self.transport().history()
    }

    /// Read-modify-write of bits `offset .. offset + len` of `reg`.
    pub fn set_register(&mut self, reg: Register, offset: u8, len: u8, bits: u8) -> (r: Result<
        (),
        BUS::Error,
    >)
        requires
            1 <= len <= 8,
            offset + len <= 8,
        ensures
            field_edit(old(self).history(), final(self).history(), reg, offset, len, bits, r),
            final(self).dlpf() == old(self).dlpf(),
            final(self).identity() == old(self).identity(),
    {
        let value = match self.bus.read(reg) {
            Ok(v) => v,
            Err(e) => return Err(e),
        };
        assert(self.history() == old(self).history().push(byte_read(reg, value)));
        let updated = update_field(value, offset, len, bits);
        self.bus.write(reg, updated)
    }

    /// Sets the identity that `verify` expects.
    pub fn set_slave_address(&mut self, address: u8)
        ensures
            final(self).identity() == address,
            final(self).dlpf() == old(self).dlpf(),
            final(self).history() == old(self).history(),
    {
        self.whoami = address
    }

    /// Reads the identity register.
    pub fn whoami(&mut self) -> (r: Result<u8, BUS::Error>)
        ensures
            final(self).history() == old(self).history().push(
                Access::Read { reg: Register::WhoAmI, result: byte_result(r) },
            ),
            final(self).dlpf() == old(self).dlpf(),
            final(self).identity() == old(self).identity(),
    {
        self.bus.read(Register::WhoAmI)
    }

    /// Reads the product id register.
    pub fn product_id(&mut self) -> (r: Result<u8, BUS::Error>)
        ensures
            final(self).history() == old(self).history().push(
                Access::Read { reg: Register::ProductId, result: byte_result(r) },
            ),
            final(self).dlpf() == old(self).dlpf(),
            final(self).identity() == old(self).identity(),
    {
        self.bus.read(Register::ProductId)
    }

    /// Checks that the identity register holds the expected identity and that the
    /// product id names a known revision.
    pub fn verify(&mut self) -> (r: Result<bool, BUS::Error>)
        ensures
            identity_check(old(self).history(), final(self).history(), old(self).identity(), r),
            final(self).dlpf() == old(self).dlpf(),
            final(self).identity() == old(self).identity(),
    {
        let who = match self.whoami() {
            Ok(v) => v,
            Err(e) => return Err(e),
        };
        assert(self.history() == old(self).history().push(byte_read(Register::WhoAmI, who)));
        if who != self.whoami {
            return Ok(false);
        }
        let pid = match self.product_id() {
            Ok(v) => v,
            Err(e) => return Err(e),
        };
        assert(self.history() == old(self).history().push(byte_read(Register::WhoAmI, who)).push(
            byte_read(Register::ProductId, pid),
        ));
        Ok(ProductId::from(pid) != ProductId::Unknown)
    }

    /// Device reset, then a reset of the gyro, accelerometer and temperature signal
    /// paths, each followed by a 150 ms pause. Required after power-up on the framed
    /// bus. A failed write ends it and its error is returned.
    pub fn reset<D: DelayMs>(&mut self, delay: &mut D) -> (r: Result<(), BUS::Error>)
        ensures
            ({
                let h0 = old(self).history();
                let h1 = final(self).history();
                let w0 = old(delay).waits_ms();
                let w1 = final(delay).waits_ms();
                ||| (r is Err && h1 == h0.push(
                    Access::Write { reg: Register::PowerManagement1, value: 0x80, result: r },
                ) && w1 == w0)
                ||| (h1.len() > h0.len() && write_succeeded(
                    h1[h0.len() as int],
                    Register::PowerManagement1,
                    0x80,
                ) && h1 == h0.push(h1[h0.len() as int]).push(
                    Access::Write { reg: Register::SignalPathReset, value: 0x07, result: r },
                ) && w1 == if r is Ok {
                    w0.push(150).push(150)
                } else {
                    w0.push(150)
                })
            }),
            ({
                let s0 = old(self).steps();
                let s1 = final(self).steps();
                let pause = Step::<BUS::Error>::Pause { ms: 150 };
                let paths = Step::Transaction(
                    Access::Write { reg: Register::SignalPathReset, value: 0x07, result: r },
                );
                ||| (r is Err && s1 == s0.push(
                    Step::Transaction(
                        Access::Write { reg: Register::PowerManagement1, value: 0x80, result: r },
                    ),
                ))
                ||| (s1.len() > s0.len() && (s1[s0.len() as int] matches Step::Transaction(a)
                    && write_succeeded(a, Register::PowerManagement1, 0x80)) && s1 == s0.push(
                    s1[s0.len() as int],
                ).push(pause).push(paths) + if r is Ok {
                    seq![pause]
                } else {
                    Seq::empty()
                })
            }),
            final(self).dlpf() == old(self).dlpf(),
            final(self).identity() == old(self).identity(),
    {
        let reset_bit = PowerManagement1::DeviceReset.mask();
        let device = self.bus.write(Register::PowerManagement1, reset_bit);
        if device.is_err() {
            return device;
        }
        self.bus.pause(delay, 150);
        let value = SignalPathReset::TemperatureReset.mask()
            | SignalPathReset::AccelerometerReset.mask() | SignalPathReset::GyroReset.mask();
        assert(((1u8 | 2u8) | 4u8) == 7u8) by (bit_vector);
        let paths = self.bus.write(Register::SignalPathReset, value);
        if paths.is_err() {
            return paths;
        }
        self.bus.pause(delay, 150);
        paths
    }

    /// Sleep flag: bit 6 of power management 1.
    pub fn set_sleep(&mut self, enable: bool) -> (r: Result<(), BUS::Error>)
        ensures
            field_edit(
                old(self).history(),
                final(self).history(),
                Register::PowerManagement1,
                6,
                1,
                if enable { 1 } else { 0 },
                r,
            ),
            final(self).dlpf() == old(self).dlpf(),
            final(self).identity() == old(self).identity(),
    {
        self.set_register(Register::PowerManagement1, 6, 1, if enable { 1 } else { 0 })
    }

    /// Clock select: bits 2..0 of power management 1.
    pub fn set_clock_source(&mut self, source: ClockSource) -> (r: Result<(), BUS::Error>)
        ensures
            field_edit(
                old(self).history(),
                final(self).history(),
                Register::PowerManagement1,
                0,
                3,
                source.spec_code(),
                r,
            ),
            final(self).dlpf() == old(self).dlpf(),
            final(self).identity() == old(self).identity(),
    {
        self.set_register(Register::PowerManagement1, 0, 3, source.code())
    }

    /// Digital low-pass filter setting: bits 2..0 of the configuration register.
    /// Call before `set_sample_rate`, whose base clock depends on it.
    pub fn set_dlpf(&mut self, value: u8) -> (r: Result<(), BUS::Error>)
        ensures
            field_edit(
                old(self).history(),
                final(self).history(),
                Register::Configuration,
                0,
                3,
                value,
                r,
            ),
            final(self).dlpf() == dlpf_active(value),
            final(self).identity() == old(self).identity(),
    {
        self.dlpf_enabled = 0 < value && value < 7;
        self.set_register(Register::Configuration, 0, 3, value)
    }

    /// Disables the two-wire interface: bit 2 of user control.
    pub fn set_i2c_disable(&mut self, disable: bool) -> (r: Result<(), BUS::Error>)
        ensures
            field_edit(
                old(self).history(),
                final(self).history(),
                Register::UserControl,
                2,
                1,
                if disable { 1 } else { 0 },
                r,
            ),
            final(self).dlpf() == old(self).dlpf(),
            final(self).identity() == old(self).identity(),
    {
        self.set_register(Register::UserControl, 2, 1, if disable { 1 } else { 0 })
    }

    /// Writes the sample rate divider for `rate` hertz (set the filter first).
    pub fn set_sample_rate(&mut self, rate: u16) -> (r: Result<(), BUS::Error>)
        requires
            1 <= rate <= if old(self).dlpf() {
                1000u16
            } else {
                8000u16
            },
        ensures
            final(self).history() == old(self).history().push(
                Access::Write {
                    reg: Register::SampleRateDivider,
                    value: sample_rate_divider(old(self).dlpf(), rate),
                    result: r,
                },
            ),
            final(self).dlpf() == old(self).dlpf(),
            final(self).identity() == old(self).identity(),
    {
        let base: u16 = if self.dlpf_enabled {
            1000
        } else {
            8000
        };
        assert(base / rate >= 1) by (nonlinear_arith)
            requires
                1 <= rate <= base,
        ;
        let divider: u16 = base / rate - 1;
        self.bus.write(Register::SampleRateDivider, (divider % 256) as u8)
    }

    /// Interrupt pin option `pin_config` on or off.
    pub fn set_int_pin_config(&mut self, pin_config: IntPinConfig, enable: bool) -> (r: Result<
        (),
        BUS::Error,
    >)
        ensures
            field_edit(
                old(self).history(),
                final(self).history(),
                Register::IntPinConfig,
                pin_config.spec_bit(),
                1,
                if enable { 1 } else { 0 },
                r,
            ),
            final(self).dlpf() == old(self).dlpf(),
            final(self).identity() == old(self).identity(),
    {
        self.set_register(Register::IntPinConfig, pin_config.bit(), 1, if enable { 1 } else { 0 })
    }

    /// Interrupt source `interrupt` on or off.
    pub fn set_interrupt_enable(&mut self, interrupt: Interrupt, enable: bool) -> (r: Result<
        (),
        BUS::Error,
    >)
        ensures
            field_edit(
                old(self).history(),
                final(self).history(),
                Register::InterruptEnable,
                interrupt.spec_bit(),
                1,
                if enable { 1 } else { 0 },
                r,
            ),
            final(self).dlpf() == old(self).dlpf(),
            final(self).identity() == old(self).identity(),
    {
        self.set_register(
            Register::InterruptEnable,
            interrupt.bit(),
            1,
            if enable { 1 } else { 0 },
        )
    }

    /// Writes the whole FIFO enable register.
    pub fn enable_fifo(&mut self, fifo_enable: FifoEnable) -> (r: Result<(), BUS::Error>)
        ensures
            final(self).history() == old(self).history().push(
                Access::Write {
                    reg: Register::FifoEnable,
                    value: fifo_byte(fifo_enable),
                    result: r,
                },
            ),
            final(self).dlpf() == old(self).dlpf(),
            final(self).identity() == old(self).identity(),
    {
        let value = u8::from(fifo_enable);
        self.bus.write(Register::FifoEnable, value)
    }

    /// Sets the FIFO enable bit (bit 6) of user control, keeping the other bits.
    pub fn enable_fifo_buffer(&mut self) -> (r: Result<(), BUS::Error>)
        ensures
            (r is Err && final(self).history() == old(self).history().push(
                Access::Read { reg: Register::UserControl, result: Err(r->Err_0) },
            )) || exists|v: u8|
                final(self).history() == old(self).history().push(
                    #[trigger] byte_read(Register::UserControl, v),
                ).push(Access::Write { reg: Register::UserControl, value: v | 0x40, result: r }),
            final(self).dlpf() == old(self).dlpf(),
            final(self).identity() == old(self).identity(),
    {
        let value = match self.bus.read(Register::UserControl) {
            Ok(v) => v,
            Err(e) => return Err(e),
        };
        assert(self.history() == old(self).history().push(
            byte_read(Register::UserControl, value),
        ));
        self.bus.write(Register::UserControl, value | 0x40)
    }

    /// Number of bytes in the FIFO: high then low count register, big-endian.
    pub fn get_fifo_counter(&mut self) -> (r: Result<u16, BUS::Error>)
        ensures
            ({
                let h0 = old(self).history();
                let h1 = final(self).history();
                ||| (r is Err && h1 == h0.push(
                    Access::Read { reg: Register::FifoCountHigh, result: Err(r->Err_0) },
                ))
                ||| exists|hi: u8|
                    r is Err && h1 == h0.push(#[trigger] byte_read(Register::FifoCountHigh, hi)).push(
                        Access::Read { reg: Register::FifoCountLow, result: Err(r->Err_0) },
                    )
                ||| exists|hi: u8, lo: u8|
                    h1 == h0.push(#[trigger] byte_read(Register::FifoCountHigh, hi)).push(
                        #[trigger] byte_read(Register::FifoCountLow, lo),
                    ) && r == Ok::<u16, BUS::Error>((hi as int * 256 + lo as int) as u16)
            }),
            final(self).dlpf() == old(self).dlpf(),
            final(self).identity() == old(self).identity(),
    {
        let high = match self.bus.read(Register::FifoCountHigh) {
            Ok(v) => v,
            Err(e) => return Err(e),
        };
        assert(self.history() == old(self).history().push(
            byte_read(Register::FifoCountHigh, high),
        ));
        let low = match self.bus.read(Register::FifoCountLow) {
            Ok(v) => v,
            Err(e) => return Err(e),
        };
        assert(self.history() == old(self).history().push(
            byte_read(Register::FifoCountHigh, high),
        ).push(byte_read(Register::FifoCountLow, low)));
        Ok((high as u16) * 256 + (low as u16))
    }

    /// Writes the full-scale selector into the top two bits of the gyro configuration.
    pub fn set_gyro_range(&mut self, range: GyroRange) -> (r: Result<(), BUS::Error>)
        ensures
            final(self).history() == old(self).history().push(
                Access::Write {
                    reg: Register::GyroConfig,
                    value: (range.spec_selector() * 64) as u8,
                    result: r,
                },
            ),
            final(self).dlpf() == old(self).dlpf(),
            final(self).identity() == old(self).identity(),
    {
        self.bus.write(Register::GyroConfig, range.selector() * 64)
    }

    /// Writes the full-scale selector into the top two bits of the accelerometer
    /// configuration.
    pub fn set_accelerometer_range(&mut self, range: AccelerometerRange) -> (r: Result<
        (),
        BUS::Error,
    >)
        ensures
            final(self).history() == old(self).history().push(
                Access::Write {
                    reg: Register::AccelerometerConfig,
                    value: (range.spec_selector() * 64) as u8,
                    result: r,
                },
            ),
            final(self).dlpf() == old(self).dlpf(),
            final(self).identity() == old(self).identity(),
    {
        self.bus.write(Register::AccelerometerConfig, range.selector() * 64)
    }

    /// Burst read of the three accelerometer axes.
    pub fn read_acceleration(&mut self) -> (r: Result<Acceleration, BUS::Error>)
        ensures
            burst_read(
                old(self).history(),
                final(self).history(),
                Register::AccelerometerXHigh,
                6,
                err_of(r),
            ),
            (r matches Ok(a) ==> a.x == read_sample(final(self).history(), 0)
                && a.y == read_sample(final(self).history(), 1)
                && a.z == read_sample(final(self).history(), 2)),
            final(self).dlpf() == old(self).dlpf(),
            final(self).identity() == old(self).identity(),
    {
        let mut buffer: Vec<u8> = vec![0u8, 0, 0, 0, 0, 0];
        match self.bus.reads(Register::AccelerometerXHigh, buffer.as_mut_slice()) {
            Ok(()) => Ok(Acceleration::from_bytes(buffer.as_slice())),
            Err(e) => Err(e),
        }
    }

    /// Burst read of the three gyroscope axes.
    pub fn read_gyro(&mut self) -> (r: Result<Gyro, BUS::Error>)
        ensures
            burst_read(old(self).history(), final(self).history(), Register::GyroXHigh, 6, err_of(r)),
            (r matches Ok(g) ==> g.x == read_sample(final(self).history(), 0)
                && g.y == read_sample(final(self).history(), 1)
                && g.z == read_sample(final(self).history(), 2)),
            final(self).dlpf() == old(self).dlpf(),
            final(self).identity() == old(self).identity(),
    {
        let mut buffer: Vec<u8> = vec![0u8, 0, 0, 0, 0, 0];
        match self.bus.reads(Register::GyroXHigh, buffer.as_mut_slice()) {
            Ok(()) => Ok(Gyro::from_bytes(buffer.as_slice())),
            Err(e) => Err(e),
        }
    }

    /// Burst read of the temperature sample.
    pub fn read_temperature(&mut self) -> (r: Result<Temperature, BUS::Error>)
        ensures
            burst_read(old(self).history(), final(self).history(), Register::TemperatureHigh, 2, err_of(r)),
            (r matches Ok(t) ==> t.raw == read_sample(final(self).history(), 0)),
            final(self).dlpf() == old(self).dlpf(),
            final(self).identity() == old(self).identity(),
    {
        let mut buffer: Vec<u8> = vec![0u8, 0];
        match self.bus.reads(Register::TemperatureHigh, buffer.as_mut_slice()) {
            Ok(()) => Ok(Temperature::from_bytes(buffer.as_slice())),
            Err(e) => Err(e),
        }
    }

    /// One burst read of the whole sensor block: accelerometer, temperature, gyro.
    pub fn read_all(&mut self) -> (r: Result<(Acceleration, Temperature, Gyro), BUS::Error>)
        ensures
            burst_read(
                old(self).history(),
                final(self).history(),
                Register::AccelerometerXHigh,
                14,
                err_of(r),
            ),
            (r matches Ok((a, t, g)) ==> a.x == read_sample(final(self).history(), 0)
                && a.y == read_sample(final(self).history(), 1)
                && a.z == read_sample(final(self).history(), 2)
                && t.raw == read_sample(final(self).history(), 3)
                && g.x == read_sample(final(self).history(), 4)
                && g.y == read_sample(final(self).history(), 5)
                && g.z == read_sample(final(self).history(), 6)),
            final(self).dlpf() == old(self).dlpf(),
            final(self).identity() == old(self).identity(),
    {
        let mut buffer: Vec<u8> = vec![0u8, 0, 0, 0, 0, 0, 0, 0, 0, 0, 0, 0, 0, 0];
        match self.bus.reads(Register::AccelerometerXHigh, buffer.as_mut_slice()) {
            Ok(()) => {
                let bytes = buffer.as_slice();
                let a = Acceleration::from_bytes(slice_subrange(bytes, 0, 6));
                let t = Temperature::from_bytes(slice_subrange(bytes, 6, 8));
                let g = Gyro::from_bytes(slice_subrange(bytes, 8, 14));
                Ok((a, t, g))
            },
            Err(e) => Err(e),
        }
    }
}

} // verus!
