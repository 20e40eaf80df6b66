//! Sensor readings in fixed-point units, with a flag for each reading that
//! holds a valid value.
use vstd::prelude::*;

use crate::flags::{flag, with_flag};

verus! {

/// Error types for sensor operations.
#[derive(Debug, Clone, Copy, PartialEq, Eq, Structural)]
pub enum SensorError {
    /// Sensor initialization failed.
    InitializationFailed,
    /// Communication with sensor failed.
    CommunicationFailed,
    /// Sensor reading is out of valid range.
    OutOfRange,
    /// Sensor is not ready for operation.
    NotReady,
    /// Timeout occurred during sensor operation.
    Timeout,
    /// Sensor calibration failed or is invalid.
    CalibrationError,
    /// Sensor hardware malfunction detected.
    HardwareFault,
    /// Invalid sensor configuration.
    InvalidConfiguration,
    /// Sensor data is corrupted or invalid.
    DataCorruption,
    /// Generic sensor error.
    GenericError,
}

const TEMPERATURE_BIT: u8 = 1;
const HUMIDITY_BIT: u8 = 2;
const PRESSURE_BIT: u8 = 4;
const LIGHT_BIT: u8 = 8;

/// Which readings are valid, packed into one byte: temperature, humidity,
/// pressure and light, from the lowest bit up; the high bits are reserved.
#[derive(Debug, Clone, Copy, PartialEq, Eq, Structural)]
pub struct DataValidity {
    bits: u8,
}

impl DataValidity {
    /// The packed byte.
    pub closed spec fn bits_spec(&self) -> u8 {
        self.bits
    }

    /// Whether the temperature reading is valid.
    pub open spec fn temperature_spec(&self) -> bool {
        flag(self.bits_spec(), 1)
    }

    /// Whether the humidity reading is valid.
    pub open spec fn humidity_spec(&self) -> bool {
        flag(self.bits_spec(), 2)
    }

    /// Whether the pressure reading is valid.
    pub open spec fn pressure_spec(&self) -> bool {
        flag(self.bits_spec(), 4)
    }

    /// Whether the light reading is valid.
    pub open spec fn light_spec(&self) -> bool {
        flag(self.bits_spec(), 8)
    }

    /// No reading valid.
    pub fn new() -> (r: DataValidity)
        ensures
            r.bits_spec() == 0,
            !r.temperature_spec(),
            !r.humidity_spec(),
            !r.pressure_spec(),
            !r.light_spec(),
    {
        assert(0u8 & 1 == 0 && 0u8 & 2 == 0 && 0u8 & 4 == 0 && 0u8 & 8 == 0) by (bit_vector);
        DataValidity { bits: 0 }
    }

    /// Every reading valid.
    pub fn all_valid() -> (r: DataValidity)
        ensures
            r.temperature_spec(),
            r.humidity_spec(),
            r.pressure_spec(),
            r.light_spec(),
    {
        DataValidity::new()
            .with_temperature_valid(true)
            .with_humidity_valid(true)
            .with_pressure_valid(true)
            .with_light_valid(true)
    }

    /// A copy with the temperature flag set to `value`.
    pub fn with_temperature_valid(self, value: bool) -> (r: DataValidity)
        ensures
            r.temperature_spec() == value,
            r.humidity_spec() == self.humidity_spec(),
            r.pressure_spec() == self.pressure_spec(),
            r.light_spec() == self.light_spec(),
    {
        DataValidity { bits: with_flag(self.bits, TEMPERATURE_BIT, value) }
    }

    /// A copy with the humidity flag set to `value`.
    pub fn with_humidity_valid(self, value: bool) -> (r: DataValidity)
        ensures
            r.humidity_spec() == value,
            r.temperature_spec() == self.temperature_spec(),
            r.pressure_spec() == self.pressure_spec(),
            r.light_spec() == self.light_spec(),
    {
        DataValidity { bits: with_flag(self.bits, HUMIDITY_BIT, value) }
    }

    /// A copy with the pressure flag set to `value`.
    pub fn with_pressure_valid(self, value: bool) -> (r: DataValidity)
        ensures
            r.pressure_spec() == value,
            r.temperature_spec() == self.temperature_spec(),
            r.humidity_spec() == self.humidity_spec(),
            r.light_spec() == self.light_spec(),
    {
        DataValidity { bits: with_flag(self.bits, PRESSURE_BIT, value) }
    }

    /// A copy with the light flag set to `value`.
    pub fn with_light_valid(self, value: bool) -> (r: DataValidity)
        ensures
            r.light_spec() == value,
            r.temperature_spec() == self.temperature_spec(),
            r.humidity_spec() == self.humidity_spec(),
            r.pressure_spec() == self.pressure_spec(),
    {
        DataValidity { bits: with_flag(self.bits, LIGHT_BIT, value) }
    }

    /// Whether the temperature reading is valid.
    pub fn temperature_valid(&self) -> (r: bool)
        ensures
            r == self.temperature_spec(),
    {
        self.bits & TEMPERATURE_BIT != 0
    }

    /// Whether the humidity reading is valid.
    pub fn humidity_valid(&self) -> (r: bool)
        ensures
            r == self.humidity_spec(),
    {
        self.bits & HUMIDITY_BIT != 0
    }

    /// Whether the pressure reading is valid.
    pub fn pressure_valid(&self) -> (r: bool)
        ensures
            r == self.pressure_spec(),
    {
        self.bits & PRESSURE_BIT != 0
    }

    /// Whether the light reading is valid.
    pub fn light_valid(&self) -> (r: bool)
        ensures
            r == self.light_spec(),
    {
        self.bits & LIGHT_BIT != 0
    }

    /// Check if any sensor data is valid.
    pub fn has_valid_data(&self) -> (r: bool)
        ensures
            r == (self.temperature_spec() || self.humidity_spec() || self.pressure_spec()
                || self.light_spec()),
    {
        self.temperature_valid() || self.humidity_valid() || self.pressure_valid()
            || self.light_valid()
    }

    /// Check if all sensor data is valid.
    pub fn all_data_valid(&self) -> (r: bool)
        ensures
            r == (self.temperature_spec() && self.humidity_spec() && self.pressure_spec()
                && self.light_spec()),
    {
        self.temperature_valid() && self.humidity_valid() && self.pressure_valid()
            && self.light_valid()
    }
}

/// One set of environmental readings.
#[derive(Debug, Clone, Copy, PartialEq, Eq)]
pub struct EnvironmentalData {
    /// Temperature in hundredths of a degree Celsius (2550 is 25.50 C).
    pub temperature_celsius_x100: i32,
    /// Relative humidity in hundredths of a percent (6525 is 65.25 %).
    pub humidity_percent_x100: u32,
    /// Atmospheric pressure in pascals.
    pub pressure_pa: u32,
    /// Light intensity in tenths of a lux (1500 is 150.0 lx).
    pub light_lux_x10: u32,
    /// Time of the reading, in milliseconds since start-up.
    pub timestamp_ms: u64,
    /// Which readings are valid.
    pub validity: DataValidity,
}

impl EnvironmentalData {
    /// All readings zero and none valid.
    pub fn new() -> (r: EnvironmentalData)
        ensures
            r.temperature_celsius_x100 == 0,
            r.humidity_percent_x100 == 0,
            r.pressure_pa == 0,
            r.light_lux_x10 == 0,
            r.timestamp_ms == 0,
            r.validity.bits_spec() == 0,
    {
        EnvironmentalData {
            temperature_celsius_x100: 0,
            humidity_percent_x100: 0,
            pressure_pa: 0,
            light_lux_x10: 0,
            timestamp_ms: 0,
            validity: DataValidity::new(),
        }
    }

    /// Records a pressure reading in pascals and marks it valid.
    pub fn set_pressure_pa(&mut self, pressure: u32)
        ensures
            final(self).pressure_pa == pressure,
            final(self).validity.pressure_spec(),
            final(self).validity.temperature_spec() == old(self).validity.temperature_spec(),
            final(self).validity.humidity_spec() == old(self).validity.humidity_spec(),
            final(self).validity.light_spec() == old(self).validity.light_spec(),
            final(self).temperature_celsius_x100 == old(self).temperature_celsius_x100,
            final(self).humidity_percent_x100 == old(self).humidity_percent_x100,
            final(self).light_lux_x10 == old(self).light_lux_x10,
            final(self).timestamp_ms == old(self).timestamp_ms,
    {
        self.pressure_pa = pressure;
        self.validity = self.validity.with_pressure_valid(true);
    }
}

impl Default for EnvironmentalData {
    fn default() -> (r: EnvironmentalData)
        ensures
            r.temperature_celsius_x100 == 0,
            r.humidity_percent_x100 == 0,
            r.pressure_pa == 0,
            r.light_lux_x10 == 0,
            r.timestamp_ms == 0,
            r.validity.bits_spec() == 0,
    {
        EnvironmentalData::new()
    }
}

/// An environmental sensor.
pub trait EnvironmentalSensor {
    /// Takes one set of readings.
    fn read(&mut self) -> Result<EnvironmentalData, SensorError>;

    /// Brings up the sensor hardware.
    fn initialize(&mut self) -> Result<(), SensorError>;

    /// Whether the sensor can provide readings.
    fn is_ready(&self) -> bool;

    /// Puts the sensor into its low-power mode.
    fn sleep(&mut self) -> Result<(), SensorError>;

    /// Wakes the sensor from its low-power mode.
    fn wake(&mut self) -> Result<(), SensorError>;

    /// Which readings this sensor can provide.
    fn get_capabilities(&self) -> DataValidity;

    /// Runs the sensor's self-test.
    fn self_test(&mut self) -> Result<(), SensorError>;

    /// The minimum time between readings, in milliseconds.
    fn get_min_reading_interval_ms(&self) -> u32;
}

} // verus!
