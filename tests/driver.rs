use mpu6000::bus::{
    DelayMs, DelayUs, I2cBus, I2cPort, RegAccess, SelectPin, SpiBus, SpiError, SpiPort,
};
use mpu6000::measurement::{
    decode_sample, TEMPERATURE_LSB_PER_DEGREE, TEMPERATURE_OFFSET_CENTIDEGREES,
};
use mpu6000::registers::{AccelerometerRange, GyroRange, ProductId, Register};
use mpu6000::{ClockSource, FifoEnable, IntPinConfig, Interrupt, MPU6000};

/// Register file that keeps what is written and serves it back, with auto-increment.
struct Regs {
    mem: [u8; 128],
    reads: usize,
    writes: usize,
}

impl Regs {
    fn new() -> Self {
        Regs { mem: [0; 128], reads: 0, writes: 0 }
    }
}

impl RegAccess for Regs {
    type Error = ();

    fn write(&mut self, reg: Register, value: u8) -> Result<(), ()> {
        self.writes += 1;
        self.mem[reg.addr() as usize] = value;
        Ok(())
    }

    fn read(&mut self, reg: Register) -> Result<u8, ()> {
        self.reads += 1;
        Ok(self.mem[reg.addr() as usize])
    }

    fn reads(&mut self, reg: Register, output: &mut [u8]) -> Result<(), ()> {
        self.reads += 1;
        let start = reg.addr() as usize;
        for (i, b) in output.iter_mut().enumerate() {
            *b = self.mem[start + i];
        }
        Ok(())
    }
}

struct StubSPI {}

impl SpiPort for StubSPI {
    type WriteError = &'static str;
    type TransferError = &'static str;

    fn write(&mut self, _words: &[u8]) -> Result<(), &'static str> {
        Ok(())
    }

    fn transfer(&mut self, words: &mut [u8]) -> Result<(), &'static str> {
        for b in words.iter_mut() {
            *b = 100;
        }
        Ok(())
    }
}

struct StubOutputPin {}

impl SelectPin for StubOutputPin {
    type Error = &'static str;

    fn set_high(&mut self) -> Result<(), &'static str> {
        Ok(())
    }

    fn set_low(&mut self) -> Result<(), &'static str> {
        Ok(())
    }
}

struct Nodelay {}

impl DelayMs for Nodelay {
    fn delay_ms(&mut self, _ms: u8) {}
}

impl DelayUs for Nodelay {
    fn delay_us(&mut self, _us: u8) {}
}

/// Serial port that behaves like the chip's register file, and records its calls.
struct EchoSpi {
    mem: [u8; 128],
    pointer: usize,
    calls: Vec<String>,
    fail_write: bool,
    fail_transfer: bool,
}

impl EchoSpi {
    fn new() -> Self {
        EchoSpi { mem: [0; 128], pointer: 0, calls: Vec::new(), fail_write: false, fail_transfer: false }
    }
}

impl SpiPort for EchoSpi {
    type WriteError = u8;
    type TransferError = u16;

    fn write(&mut self, words: &[u8]) -> Result<(), u8> {
        self.calls.push(format!("write {:?}", words));
        if self.fail_write {
            return Err(1);
        }
        if words.len() == 2 {
            self.mem[(words[0] & 0x7f) as usize] = words[1];
        } else if words.len() == 1 {
            self.pointer = (words[0] & 0x7f) as usize;
        }
        Ok(())
    }

    fn transfer(&mut self, words: &mut [u8]) -> Result<(), u16> {
        self.calls.push(format!("transfer {}", words.len()));
        if self.fail_transfer {
            return Err(2);
        }
        for (i, b) in words.iter_mut().enumerate() {
            *b = self.mem[self.pointer + i];
        }
        Ok(())
    }
}

/// Chip-select line that counts its edges.
struct CountingPin {
    lows: usize,
    highs: usize,
    fail: bool,
}

impl SelectPin for CountingPin {
    type Error = char;

    fn set_low(&mut self) -> Result<(), char> {
        self.lows += 1;
        if self.fail {
            Err('p')
        } else {
            Ok(())
        }
    }

    fn set_high(&mut self) -> Result<(), char> {
        self.highs += 1;
        Ok(())
    }
}

struct CountingDelay {
    us_calls: usize,
    ms: Vec<u8>,
}

impl DelayUs for CountingDelay {
    fn delay_us(&mut self, _us: u8) {
        self.us_calls += 1;
    }
}

impl DelayMs for CountingDelay {
    fn delay_ms(&mut self, ms: u8) {
        self.ms.push(ms);
    }
}

fn counting_bus() -> SpiBus<EchoSpi, CountingPin, CountingDelay> {
    SpiBus::new(
        EchoSpi::new(),
        CountingPin { lows: 0, highs: 0, fail: false },
        CountingDelay { us_calls: 0, ms: Vec::new() },
    )
}

#[test]
fn test_functional() {
    let spi_bus = SpiBus::new(StubSPI {}, StubOutputPin {}, Nodelay {});
    let mut mpu6000 = MPU6000::new(spi_bus);
    let mut delay = Nodelay {};
    mpu6000.reset(&mut delay).ok();
    mpu6000.set_sleep(false).ok();
    mpu6000.set_accelerometer_range(AccelerometerRange::G16).ok();
    mpu6000.set_gyro_range(GyroRange::DPS2000).ok();
    mpu6000.read_all().ok();
}

#[test]
fn field_edit_keeps_other_bits() {
    let mut regs = Regs::new();
    regs.mem[Register::Configuration.addr() as usize] = 0b1010_1010;
    let mut mpu = MPU6000::new(regs);
    mpu.set_register(Register::Configuration, 2, 3, 0b1111_0101).unwrap();
    let regs = mpu.free();
    assert_eq!(regs.mem[0x1a], 0b1011_0110);
}

#[test]
fn field_edit_full_width() {
    let mut regs = Regs::new();
    regs.mem[0x1a] = 0xff;
    let mut mpu = MPU6000::new(regs);
    mpu.set_register(Register::Configuration, 0, 8, 0x5a).unwrap();
    assert_eq!(mpu.free().mem[0x1a], 0x5a);
}

#[test]
fn field_edit_top_bit() {
    let mut regs = Regs::new();
    regs.mem[0x1a] = 0x7f;
    let mut mpu = MPU6000::new(regs);
    mpu.set_register(Register::Configuration, 7, 1, 1).unwrap();
    assert_eq!(mpu.free().mem[0x1a], 0xff);
}

#[test]
fn field_edit_reads_once_and_writes_once() {
    let mut mpu = MPU6000::new(Regs::new());
    mpu.set_register(Register::UserControl, 1, 2, 3).unwrap();
    let regs = mpu.free();
    assert_eq!(regs.reads, 1);
    assert_eq!(regs.writes, 1);
}

#[test]
fn framed_transaction_brackets_chip_select() {
    let mut bus = counting_bus();
    bus.write(Register::GyroConfig, 0xc0).unwrap();
    bus.read(Register::GyroConfig).unwrap();
    let mut out = [0u8; 6];
    bus.reads(Register::AccelerometerXHigh, &mut out).unwrap();
    let (spi, cs, delay) = bus.free();
    assert_eq!(cs.lows, 3);
    assert_eq!(cs.highs, 3);
    assert_eq!(delay.us_calls, 6);
    assert_eq!(
        spi.calls,
        vec![
            "write [27, 192]".to_string(),
            "write [155]".to_string(),
            "transfer 1".to_string(),
            "write [187]".to_string(),
            "transfer 6".to_string(),
        ]
    );
}

#[test]
fn framed_write_then_read_round_trip() {
    let mut bus = counting_bus();
    for v in 0..=255u8 {
        bus.write(Register::SampleRateDivider, v).unwrap();
        assert_eq!(bus.read(Register::SampleRateDivider).unwrap(), v);
    }
}

#[test]
fn framed_select_failure() {
    let mut bus = SpiBus::new(
        EchoSpi::new(),
        CountingPin { lows: 0, highs: 0, fail: true },
        CountingDelay { us_calls: 0, ms: Vec::new() },
    );
    assert!(matches!(bus.write(Register::GyroConfig, 1), Err(SpiError::OutputPinError('p'))));
    let (spi, cs, delay) = bus.free();
    assert!(spi.calls.is_empty());
    assert_eq!(cs.highs, 0);
    assert_eq!(delay.us_calls, 0);
}

#[test]
fn framed_send_failure_still_releases() {
    let mut spi = EchoSpi::new();
    spi.fail_write = true;
    let mut bus = SpiBus::new(
        spi,
        CountingPin { lows: 0, highs: 0, fail: false },
        CountingDelay { us_calls: 0, ms: Vec::new() },
    );
    assert!(matches!(bus.write(Register::GyroConfig, 1), Err(SpiError::WriteError(1))));
    assert!(matches!(bus.read(Register::GyroConfig), Err(SpiError::WriteError(1))));
    let (spi, cs, delay) = bus.free();
    assert_eq!(spi.calls.len(), 2);
    assert_eq!(cs.lows, 2);
    assert_eq!(cs.highs, 2);
    assert_eq!(delay.us_calls, 4);
}

#[test]
fn framed_transfer_failure() {
    let mut spi = EchoSpi::new();
    spi.fail_transfer = true;
    let mut bus = SpiBus::new(
        spi,
        CountingPin { lows: 0, highs: 0, fail: false },
        CountingDelay { us_calls: 0, ms: Vec::new() },
    );
    let mut out = [0u8; 2];
    assert!(matches!(
        bus.reads(Register::TemperatureHigh, &mut out),
        Err(SpiError::TransferError(2))
    ));
    let (_, cs, _) = bus.free();
    assert_eq!(cs.highs, 1);
}

/// Two-wire port that behaves like the chip's register file at one address.
struct EchoI2c {
    mem: [u8; 128],
    addresses: Vec<u8>,
    read_flags: Vec<u8>,
}

impl I2cPort for EchoI2c {
    type Error = i32;

    fn write(&mut self, address: u8, bytes: &[u8]) -> Result<(), i32> {
        self.addresses.push(address);
        if bytes.len() != 2 {
            return Err(-1);
        }
        self.mem[bytes[0] as usize] = bytes[1];
        Ok(())
    }

    fn write_read(&mut self, address: u8, bytes: &[u8], buffer: &mut [u8]) -> Result<(), i32> {
        self.addresses.push(address);
        self.read_flags.push(bytes[0]);
        let start = (bytes[0] & 0x7f) as usize;
        for (i, b) in buffer.iter_mut().enumerate() {
            *b = self.mem[start + i];
        }
        Ok(())
    }
}

#[test]
fn addressed_write_then_read_round_trip() {
    let port = EchoI2c { mem: [0; 128], addresses: Vec::new(), read_flags: Vec::new() };
    let mut bus = I2cBus::i2c(port, 0x69, Nodelay {});
    for v in 0..=255u8 {
        bus.write(Register::FifoEnable, v).unwrap();
        assert_eq!(bus.read(Register::FifoEnable).unwrap(), v);
    }
    let (port, _) = bus.free();
    assert!(port.addresses.iter().all(|a| *a == 0x69));
    assert!(port.read_flags.iter().all(|f| *f == 0x23 | 0x80));
}

#[test]
fn sample_rate_without_filter() {
    let mut mpu = MPU6000::new(Regs::new());
    mpu.set_sample_rate(1000).unwrap();
    assert_eq!(mpu.free().mem[0x19], 7);
}

#[test]
fn sample_rate_with_filter() {
    let mut mpu = MPU6000::new(Regs::new());
    mpu.set_dlpf(3).unwrap();
    mpu.set_sample_rate(500).unwrap();
    let regs = mpu.free();
    assert_eq!(regs.mem[0x19], 1);
    assert_eq!(regs.mem[0x1a], 3);
}

#[test]
fn sample_rate_filter_setting_seven_counts_as_off() {
    let mut mpu = MPU6000::new(Regs::new());
    mpu.set_dlpf(7).unwrap();
    mpu.set_sample_rate(4000).unwrap();
    assert_eq!(mpu.free().mem[0x19], 1);
}

#[test]
fn sample_rate_divider_truncated_to_byte() {
    let mut mpu = MPU6000::new(Regs::new());
    mpu.set_sample_rate(1).unwrap();
    assert_eq!(mpu.free().mem[0x19], (7999u16 % 256) as u8);
}

#[test]
fn fifo_counter_is_big_endian() {
    let mut regs = Regs::new();
    regs.mem[Register::FifoCountHigh.addr() as usize] = 0x01;
    regs.mem[Register::FifoCountLow.addr() as usize] = 0x02;
    let mut mpu = MPU6000::new(regs);
    assert_eq!(mpu.get_fifo_counter().unwrap(), 258);
}

#[test]
fn verify_rejects_unknown_product() {
    let mut regs = Regs::new();
    regs.mem[Register::WhoAmI.addr() as usize] = 0x68;
    regs.mem[Register::ProductId.addr() as usize] = 0x68;
    let mut mpu = MPU6000::new(regs);
    assert_eq!(mpu.verify(), Ok(false));
}

#[test]
fn verify_accepts_known_product() {
    let mut regs = Regs::new();
    regs.mem[0x75] = 0x68;
    regs.mem[0x0c] = 0x54;
    let mut mpu = MPU6000::new(regs);
    assert_eq!(mpu.verify(), Ok(true));
}

#[test]
fn verify_uses_configured_identity() {
    let mut regs = Regs::new();
    regs.mem[0x75] = 0x69;
    regs.mem[0x0c] = 0x14;
    let mut mpu = MPU6000::new(regs);
    assert_eq!(mpu.verify(), Ok(false));
    mpu.set_slave_address(0x69);
    assert_eq!(mpu.verify(), Ok(true));
    assert_eq!(mpu.whoami(), Ok(0x69));
    assert_eq!(mpu.product_id(), Ok(0x14));
}

#[test]
fn product_id_lookup() {
    assert_eq!(ProductId::from(0x14), ProductId::MPU6000_REV_C4);
    assert_eq!(ProductId::from(0x15), ProductId::MPU6000ES_REV_C5);
    assert_eq!(ProductId::from(0x5A), ProductId::MPU6000_REV_D10);
    assert_eq!(ProductId::from(0x68), ProductId::Unknown);
    assert_eq!(ProductId::from(0x00), ProductId::Unknown);
}

#[test]
fn read_all_decodes_and_scales() {
    let mut regs = Regs::new();
    let block = [
        0x01, 0x00, 0x02, 0x00, 0x03, 0x00, 0x00, 0x64, 0x00, 0x10, 0x00, 0x20, 0x00, 0x30,
    ];
    regs.mem[0x3b..0x3b + 14].copy_from_slice(&block);
    let mut mpu = MPU6000::new(regs);
    let (a, t, g) = mpu.read_all().unwrap();
    assert_eq!((a.x, a.y, a.z), (256, 512, 768));
    assert_eq!(t.raw, 100);
    assert_eq!((g.x, g.y, g.z), (16, 32, 48));

    let accel_x = a.x as f32 / AccelerometerRange::G2.lsb_per_g() as f32;
    assert_eq!(accel_x, 0.015625);
    let gyro_x = g.x as f32 / (GyroRange::DPS250.lsb_per_dps_x10() as f32 / 10.0);
    assert!((gyro_x - 0.1221).abs() < 1e-4);
    let celsius = t.raw as f32 / TEMPERATURE_LSB_PER_DEGREE as f32
        + TEMPERATURE_OFFSET_CENTIDEGREES as f32 / 100.0;
    assert!((celsius - (100.0 / 340.0 + 36.53)).abs() < 1e-4);
}

#[test]
fn single_reads_use_their_own_registers() {
    let mut regs = Regs::new();
    for i in 0..14 {
        regs.mem[0x3b + i] = (i as u8) + 1;
    }
    let mut mpu = MPU6000::new(regs);
    let a = mpu.read_acceleration().unwrap();
    assert_eq!((a.x, a.y, a.z), (0x0102, 0x0304, 0x0506));
    let t = mpu.read_temperature().unwrap();
    assert_eq!(t.raw, 0x0708);
    let g = mpu.read_gyro().unwrap();
    assert_eq!((g.x, g.y, g.z), (0x090a, 0x0b0c, 0x0d0e));
}

#[test]
fn samples_are_signed() {
    assert_eq!(decode_sample(0xff, 0xfe), -2);
    assert_eq!(decode_sample(0x80, 0x00), -32768);
    assert_eq!(decode_sample(0x7f, 0xff), 32767);
}

#[test]
fn reset_sequence() {
    let mut mpu = MPU6000::new(Regs::new());
    let mut delay = CountingDelay { us_calls: 0, ms: Vec::new() };
    mpu.reset(&mut delay).unwrap();
    assert_eq!(delay.ms, vec![150, 150]);
    let regs = mpu.free();
    assert_eq!(regs.mem[0x6b], 0x80);
    assert_eq!(regs.mem[0x68], 0x07);
}

#[test]
fn power_and_clock_fields() {
    let mut regs = Regs::new();
    regs.mem[0x6b] = 0x40;
    let mut mpu = MPU6000::new(regs);
    mpu.set_clock_source(ClockSource::PLLGyroX).unwrap();
    mpu.set_sleep(false).unwrap();
    assert_eq!(mpu.free().mem[0x6b], 0x01);

    let mut mpu = MPU6000::new(Regs::new());
    mpu.set_clock_source(ClockSource::Stop).unwrap();
    mpu.set_sleep(true).unwrap();
    assert_eq!(mpu.free().mem[0x6b], 0x47);
}

#[test]
fn interrupt_and_interface_fields() {
    let mut mpu = MPU6000::new(Regs::new());
    mpu.set_int_pin_config(IntPinConfig::IntReadClear, true).unwrap();
    mpu.set_interrupt_enable(Interrupt::DataReady, true).unwrap();
    mpu.set_i2c_disable(true).unwrap();
    let regs = mpu.free();
    assert_eq!(regs.mem[0x37], 0x10);
    assert_eq!(regs.mem[0x38], 0x01);
    assert_eq!(regs.mem[0x6a], 0x04);
}

#[test]
fn fifo_configuration() {
    let mut regs = Regs::new();
    regs.mem[0x6a] = 0x04;
    let mut mpu = MPU6000::new(regs);
    let fifo = FifoEnable { temperature: true, slave0: true, ..FifoEnable::default() };
    assert_eq!(u8::from(fifo), 0x81);
    mpu.enable_fifo(fifo).unwrap();
    mpu.enable_fifo_buffer().unwrap();
    let regs = mpu.free();
    assert_eq!(regs.mem[0x23], 0x81);
    assert_eq!(regs.mem[0x6a], 0x44);
}

#[test]
fn range_selectors() {
    let mut mpu = MPU6000::new(Regs::new());
    mpu.set_gyro_range(GyroRange::DPS2000).unwrap();
    mpu.set_accelerometer_range(AccelerometerRange::G8).unwrap();
    let regs = mpu.free();
    assert_eq!(regs.mem[0x1b], 0xc0);
    assert_eq!(regs.mem[0x1c], 0x80);
    assert_eq!(AccelerometerRange::G16.lsb_per_g(), 2048);
    assert_eq!(GyroRange::DPS500.lsb_per_dps_x10(), 655);
}

/// Register access whose reads or writes fail with a given code.
struct Failing {
    read_error: Option<u8>,
    write_error: Option<u8>,
    writes: usize,
}

impl RegAccess for Failing {
    type Error = u8;

    fn write(&mut self, _reg: Register, _value: u8) -> Result<(), u8> {
        self.writes += 1;
        match self.write_error {
            Some(e) => Err(e),
            None => Ok(()),
        }
    }

    fn read(&mut self, _reg: Register) -> Result<u8, u8> {
        match self.read_error {
            Some(e) => Err(e),
            None => Ok(0),
        }
    }

    fn reads(&mut self, _reg: Register, _output: &mut [u8]) -> Result<(), u8> {
        match self.read_error {
            Some(e) => Err(e),
            None => Ok(()),
        }
    }
}

#[test]
fn driver_returns_transport_errors() {
    let mut mpu = MPU6000::new(Failing { read_error: Some(7), write_error: None, writes: 0 });
    assert_eq!(mpu.set_register(Register::UserControl, 0, 1, 1), Err(7));
    assert_eq!(mpu.verify(), Err(7));
    assert_eq!(mpu.read_all().map(|_| ()), Err(7));
    assert_eq!(mpu.free().writes, 0);

    let mut mpu = MPU6000::new(Failing { read_error: None, write_error: Some(9), writes: 0 });
    assert_eq!(mpu.set_sleep(true), Err(9));
    let mut delay = CountingDelay { us_calls: 0, ms: Vec::new() };
    assert_eq!(mpu.reset(&mut delay), Err(9));
    assert!(delay.ms.is_empty());
    assert_eq!(mpu.free().writes, 2);
}

struct RefusingI2c {}

impl I2cPort for RefusingI2c {
    type Error = i32;

    fn write(&mut self, _address: u8, _bytes: &[u8]) -> Result<(), i32> {
        Err(-5)
    }

    fn write_read(&mut self, _address: u8, _bytes: &[u8], _buffer: &mut [u8]) -> Result<(), i32> {
        Err(-6)
    }
}

#[test]
fn addressed_errors_pass_through() {
    let mut bus = I2cBus::i2c(RefusingI2c {}, 0x68, Nodelay {});
    assert_eq!(bus.write(Register::GyroConfig, 1), Err(-5));
    assert_eq!(bus.read(Register::GyroConfig), Err(-6));
}

/// Recorder shared by the three framed parts below, to see the order of their calls.
type Trace = std::rc::Rc<std::cell::RefCell<Vec<String>>>;

struct TracedSpi {
    trace: Trace,
    fail_write: bool,
}

impl SpiPort for TracedSpi {
    type WriteError = u8;
    type TransferError = u8;

    fn write(&mut self, words: &[u8]) -> Result<(), u8> {
        self.trace.borrow_mut().push(format!("send {:?}", words));
        if self.fail_write {
            Err(3)
        } else {
            Ok(())
        }
    }

    fn transfer(&mut self, words: &mut [u8]) -> Result<(), u8> {
        self.trace.borrow_mut().push(format!("exchange {}", words.len()));
        for b in words.iter_mut() {
            *b = 0x42;
        }
        Ok(())
    }
}

struct TracedPin {
    trace: Trace,
}

impl SelectPin for TracedPin {
    type Error = u8;

    fn set_low(&mut self) -> Result<(), u8> {
        self.trace.borrow_mut().push("low".to_string());
        Ok(())
    }

    fn set_high(&mut self) -> Result<(), u8> {
        self.trace.borrow_mut().push("high".to_string());
        Ok(())
    }
}

struct TracedDelay {
    trace: Trace,
}

impl DelayUs for TracedDelay {
    fn delay_us(&mut self, us: u8) {
        self.trace.borrow_mut().push(format!("wait {}", us));
    }
}

#[test]
fn framed_calls_happen_in_order() {
    let trace: Trace = std::rc::Rc::new(std::cell::RefCell::new(Vec::new()));
    let mut bus = SpiBus::new(
        TracedSpi { trace: trace.clone(), fail_write: false },
        TracedPin { trace: trace.clone() },
        TracedDelay { trace: trace.clone() },
    );
    bus.write(Register::GyroConfig, 0x40).unwrap();
    assert_eq!(bus.read(Register::WhoAmI).unwrap(), 0x42);
    assert_eq!(
        *trace.borrow(),
        vec![
            "low", "wait 1", "send [27, 64]", "high", "wait 1",
            "low", "wait 1", "send [245]", "exchange 1", "high", "wait 1",
        ]
    );

    let trace: Trace = std::rc::Rc::new(std::cell::RefCell::new(Vec::new()));
    let mut bus = SpiBus::new(
        TracedSpi { trace: trace.clone(), fail_write: true },
        TracedPin { trace: trace.clone() },
        TracedDelay { trace: trace.clone() },
    );
    assert!(matches!(bus.read(Register::WhoAmI), Err(SpiError::WriteError(3))));
    assert_eq!(*trace.borrow(), vec!["low", "wait 1", "send [245]", "high", "wait 1"]);
}
