//! Register addresses of the chip and the constants written into them.
use vstd::prelude::*;

verus! {

/// Clock sources as encoded in the low three bits of power management 1.
#[derive(Clone, Copy, Debug, PartialEq, Eq, Structural)]
pub enum ClockSelection {
    Internal8Mhz,
    PLLWithXAxisGyroRef,
    PLLWithYAxisGyroRef,
    PLLWithZAxisGyroRef,
    PLLWithExternal32_768KHZ,
    PLLWithExternal19_2MHZ,
    StopClock,
}

impl ClockSelection {
    pub open spec fn spec_code(self) -> u8 {
        match self {
            ClockSelection::Internal8Mhz => 0,
            ClockSelection::PLLWithXAxisGyroRef => 1,
            ClockSelection::PLLWithYAxisGyroRef => 2,
            ClockSelection::PLLWithZAxisGyroRef => 3,
            ClockSelection::PLLWithExternal32_768KHZ => 4,
            ClockSelection::PLLWithExternal19_2MHZ => 5,
            ClockSelection::StopClock => 7,
        }
    }

    pub fn code(self) -> (r: u8)
        ensures
            r == self.spec_code(),
    {
        match self {
            ClockSelection::Internal8Mhz => 0,
            ClockSelection::PLLWithXAxisGyroRef => 1,
            ClockSelection::PLLWithYAxisGyroRef => 2,
            ClockSelection::PLLWithZAxisGyroRef => 3,
            ClockSelection::PLLWithExternal32_768KHZ => 4,
            ClockSelection::PLLWithExternal19_2MHZ => 5,
            ClockSelection::StopClock => 7,
        }
    }
}

/// Bits of power management 1 that are written whole.
#[derive(Clone, Copy, Debug, PartialEq, Eq, Structural)]
pub enum PowerManagement1 {
    DeviceReset,
}

impl PowerManagement1 {
    pub open spec fn spec_mask(self) -> u8 {
        match self {
            PowerManagement1::DeviceReset => 0x80,
        }
    }

    pub fn mask(self) -> (r: u8)
        ensures
            r == self.spec_mask(),
    {
        match self {
            PowerManagement1::DeviceReset => 0x80,
        }
    }
}

/// Bits of the signal path reset register.
#[derive(Clone, Copy, Debug, PartialEq, Eq, Structural)]
pub enum SignalPathReset {
    GyroReset,
    AccelerometerReset,
    TemperatureReset,
}

impl SignalPathReset {
    pub open spec fn spec_mask(self) -> u8 {
        match self {
            SignalPathReset::GyroReset => 0x04,
            SignalPathReset::AccelerometerReset => 0x02,
            SignalPathReset::TemperatureReset => 0x01,
        }
    }

    pub fn mask(self) -> (r: u8)
        ensures
            r == self.spec_mask(),
    {
        match self {
            SignalPathReset::GyroReset => 0x04,
            SignalPathReset::AccelerometerReset => 0x02,
            SignalPathReset::TemperatureReset => 0x01,
        }
    }
}

/// Full-scale range of the accelerometer.
#[derive(Clone, Copy, Debug, PartialEq, Eq, Structural)]
pub enum AccelerometerRange {
    /// +/- 2g, 16384 LSB/g
    G2,
    /// +/- 4g, 8192 LSB/g
    G4,
    /// +/- 8g, 4096 LSB/g
    G8,
    /// +/- 16g, 2048 LSB/g
    G16,
}

impl AccelerometerRange {
    /// Selector value, written to the top two bits of the accelerometer configuration.
    pub open spec fn spec_selector(self) -> u8 {
        match self {
            AccelerometerRange::G2 => 0,
            AccelerometerRange::G4 => 1,
            AccelerometerRange::G8 => 2,
            AccelerometerRange::G16 => 3,
        }
    }

    pub open spec fn spec_lsb_per_g(self) -> u32 {
        match self {
            AccelerometerRange::G2 => 16384,
            AccelerometerRange::G4 => 8192,
            AccelerometerRange::G8 => 4096,
            AccelerometerRange::G16 => 2048,
        }
    }

    pub fn selector(self) -> (r: u8)
        ensures
            r == self.spec_selector(),
            r < 4,
    {
        match self {
            AccelerometerRange::G2 => 0,
            AccelerometerRange::G4 => 1,
            AccelerometerRange::G8 => 2,
            AccelerometerRange::G16 => 3,
        }
    }

    /// Raw counts per g of acceleration at this range.
    pub fn lsb_per_g(self) -> (r: u32)
        ensures
            r == self.spec_lsb_per_g(),
    {
        match self {
            AccelerometerRange::G2 => 16384,
            AccelerometerRange::G4 => 8192,
            AccelerometerRange::G8 => 4096,
            AccelerometerRange::G16 => 2048,
        }
    }
}

/// Full-scale range of the gyroscope.
#[derive(Clone, Copy, Debug, PartialEq, Eq, Structural)]
pub enum GyroRange {
    /// +/- 250 deg/s, 131 LSB/deg/s
    DPS250,
    /// +/- 500 deg/s, 65.5 LSB/deg/s
    DPS500,
    /// +/- 1000 deg/s, 32.8 LSB/deg/s
    DPS1000,
    /// +/- 2000 deg/s, 16.4 LSB/deg/s
    DPS2000,
}

impl GyroRange {
    /// Selector value, written to the top two bits of the gyro configuration.
    pub open spec fn spec_selector(self) -> u8 {
        match self {
            GyroRange::DPS250 => 0,
            GyroRange::DPS500 => 1,
            GyroRange::DPS1000 => 2,
            GyroRange::DPS2000 => 3,
        }
    }

    /// Raw counts per degree per second, times ten.
    pub open spec fn spec_lsb_per_dps_x10(self) -> u32 {
        match self {
            GyroRange::DPS250 => 1310,
            GyroRange::DPS500 => 655,
            GyroRange::DPS1000 => 328,
            GyroRange::DPS2000 => 164,
        }
    }

    pub fn selector(self) -> (r: u8)
        ensures
            r == self.spec_selector(),
            r < 4,
    {
        match self {
            GyroRange::DPS250 => 0,
            GyroRange::DPS500 => 1,
            GyroRange::DPS1000 => 2,
            GyroRange::DPS2000 => 3,
        }
    }

    /// Raw counts per degree per second at this range, in tenths
    /// (the sensitivities are 131, 65.5, 32.8 and 16.4).
    pub fn lsb_per_dps_x10(self) -> (r: u32)
        ensures
            r == self.spec_lsb_per_dps_x10(),
    {
        match self {
            GyroRange::DPS250 => 1310,
            GyroRange::DPS500 => 655,
            GyroRange::DPS1000 => 328,
            GyroRange::DPS2000 => 164,
        }
    }
}

/// Product revisions, as reported by the product id register.
#[allow(non_camel_case_types)]
#[derive(Clone, Copy, Debug, PartialEq, Eq, Structural)]
pub enum ProductId {
    Unknown,
    MPU6000ES_REV_C4,
    MPU6000ES_REV_C5,
    MPU6000ES_REV_D6,
    MPU6000ES_REV_D7,
    MPU6000ES_REV_D8,
    MPU6000_REV_C4,
    MPU6000_REV_C5,
    MPU6000_REV_D6,
    MPU6000_REV_D7,
    MPU6000_REV_D8,
    MPU6000_REV_D9,
    MPU6000_REV_D10,
}

/// The product revision that a raw product id byte names; any other byte is `Unknown`.
pub open spec fn product_of(value: u8) -> ProductId {
    if value == 0x14 {
        ProductId::MPU6000_REV_C4
    } else if value == 0x15 {
        ProductId::MPU6000ES_REV_C5
    } else if value == 0x16 {
        ProductId::MPU6000ES_REV_D6
    } else if value == 0x17 {
        ProductId::MPU6000ES_REV_D7
    } else if value == 0x18 {
        ProductId::MPU6000ES_REV_D8
    } else if value == 0x54 {
        ProductId::MPU6000_REV_C4
    } else if value == 0x55 {
        ProductId::MPU6000_REV_C5
    } else if value == 0x56 {
        ProductId::MPU6000_REV_D6
    } else if value == 0x57 {
        ProductId::MPU6000_REV_D7
    } else if value == 0x58 {
        ProductId::MPU6000_REV_D8
    } else if value == 0x59 {
        ProductId::MPU6000_REV_D9
    } else if value == 0x5A {
        ProductId::MPU6000_REV_D10
    } else {
        ProductId::Unknown
    }
}

impl From<u8> for ProductId {
    fn from(value: u8) -> (r: ProductId) {
        match value {
            0x14 => ProductId::MPU6000_REV_C4,
            0x15 => ProductId::MPU6000ES_REV_C5,
            0x16 => ProductId::MPU6000ES_REV_D6,
            0x17 => ProductId::MPU6000ES_REV_D7,
            0x18 => ProductId::MPU6000ES_REV_D8,
            0x54 => ProductId::MPU6000_REV_C4,
            0x55 => ProductId::MPU6000_REV_C5,
            0x56 => ProductId::MPU6000_REV_D6,
            0x57 => ProductId::MPU6000_REV_D7,
            0x58 => ProductId::MPU6000_REV_D8,
            0x59 => ProductId::MPU6000_REV_D9,
            0x5A => ProductId::MPU6000_REV_D10,
            _ => ProductId::Unknown,
        }
    }
}

impl vstd::std_specs::convert::FromSpecImpl<u8> for ProductId {
    open spec fn obeys_from_spec() -> bool {
        true
    }

    open spec fn from_spec(v: u8) -> ProductId {
        product_of(v)
    }
}

/// Register addresses of the chip.
#[derive(Clone, Copy, Debug, PartialEq, Eq, Structural)]
pub enum Register {
    ProductId,
    SampleRateDivider,
    Configuration,
    GyroConfig,
    AccelerometerConfig,
    FifoEnable,
    IntPinConfig,
    InterruptEnable,
    AccelerometerXHigh,
    AccelerometerXLow,
    AccelerometerYHigh,
    AccelerometerYLow,
    AccelerometerZHigh,
    AccelerometerZLow,
    TemperatureHigh,
    TemperatureLow,
    GyroXHigh,
    GyroXLow,
    GyroYHigh,
    GyroYLow,
    GyroZHigh,
    GyroZLow,
    SignalPathReset,
    UserControl,
    /// Register to control chip waking from sleep, enabling sensors, default: sleep
    PowerManagement1,
    /// Internal register to check slave addr
    PowerManagement2,
    FifoCountHigh,
    FifoCountLow,
    FifoReadWrite,
    WhoAmI,
}

impl Register {
    pub open spec fn spec_addr(self) -> u8 {
        match self {
            Register::ProductId => 0x0c,
            Register::SampleRateDivider => 0x19,
            Register::Configuration => 0x1a,
            Register::GyroConfig => 0x1b,
            Register::AccelerometerConfig => 0x1c,
            Register::FifoEnable => 0x23,
            Register::IntPinConfig => 0x37,
            Register::InterruptEnable => 0x38,
            Register::AccelerometerXHigh => 0x3b,
            Register::AccelerometerXLow => 0x3c,
            Register::AccelerometerYHigh => 0x3d,
            Register::AccelerometerYLow => 0x3e,
            Register::AccelerometerZHigh => 0x3f,
            Register::AccelerometerZLow => 0x40,
            Register::TemperatureHigh => 0x41,
            Register::TemperatureLow => 0x42,
            Register::GyroXHigh => 0x43,
            Register::GyroXLow => 0x44,
            Register::GyroYHigh => 0x45,
            Register::GyroYLow => 0x46,
            Register::GyroZHigh => 0x47,
            Register::GyroZLow => 0x48,
            Register::SignalPathReset => 0x68,
            Register::UserControl => 0x6a,
            Register::PowerManagement1 => 0x6b,
            Register::PowerManagement2 => 0x6c,
            Register::FifoCountHigh => 0x72,
            Register::FifoCountLow => 0x73,
            Register::FifoReadWrite => 0x74,
            Register::WhoAmI => 0x75,
        }
    }

    /// The register's address on the bus; it never has the read flag (bit 7) set.
    pub fn addr(self) -> (r: u8)
        ensures
            r == self.spec_addr(),
            r < 0x80,
    {
        match self {
            Register::ProductId => 0x0c,
            Register::SampleRateDivider => 0x19,
            Register::Configuration => 0x1a,
            Register::GyroConfig => 0x1b,
            Register::AccelerometerConfig => 0x1c,
            Register::FifoEnable => 0x23,
            Register::IntPinConfig => 0x37,
            Register::InterruptEnable => 0x38,
            Register::AccelerometerXHigh => 0x3b,
            Register::AccelerometerXLow => 0x3c,
            Register::AccelerometerYHigh => 0x3d,
            Register::AccelerometerYLow => 0x3e,
            Register::AccelerometerZHigh => 0x3f,
            Register::AccelerometerZLow => 0x40,
            Register::TemperatureHigh => 0x41,
            Register::TemperatureLow => 0x42,
            Register::GyroXHigh => 0x43,
            Register::GyroXLow => 0x44,
            Register::GyroYHigh => 0x45,
            Register::GyroYLow => 0x46,
            Register::GyroZHigh => 0x47,
            Register::GyroZLow => 0x48,
            Register::SignalPathReset => 0x68,
            Register::UserControl => 0x6a,
            Register::PowerManagement1 => 0x6b,
            Register::PowerManagement2 => 0x6c,
            Register::FifoCountHigh => 0x72,
            Register::FifoCountLow => 0x73,
            Register::FifoReadWrite => 0x74,
            Register::WhoAmI => 0x75,
        }
    }
}

} // verus!
