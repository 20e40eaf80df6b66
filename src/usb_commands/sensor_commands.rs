//! The sensor behind the sensor commands.
use vstd::prelude::*;

use crate::sensors::traits::EnvironmentalSensor;

verus! {

/// Holds the sensor, if one is attached, that the sensor commands read.
pub struct SensorCommandHandler<S: EnvironmentalSensor> {
    sensor: Option<S>,
}

impl<S: EnvironmentalSensor> SensorCommandHandler<S> {
    /// The attached sensor, if any.
    pub closed spec fn sensor_spec(&self) -> Option<S> {
        self.sensor
    }

    /// A handler with no sensor attached.
    pub fn new() -> (r: Self)
        ensures
            r.sensor_spec() is None,
    {
        SensorCommandHandler { sensor: None }
    }

    /// Attaches `sensor`, replacing any sensor attached before.
    pub fn set_sensor(&mut self, sensor: S)
        ensures
            final(self).sensor_spec() == Some(sensor),
    {
        self.sensor = Some(sensor);
    }

    /// Whether a sensor is attached and reports itself ready.
    pub fn is_sensor_ready(&self) -> (r: bool)
        ensures
            self.sensor_spec() is None ==> !r,
    {
        match &self.sensor {
            Some(s) => s.is_ready(),
            None => false,
        }
    }

    /// The number of attached sensors: 0 or 1.
    pub fn sensor_count(&self) -> (r: u8)
        ensures
            r == (if self.sensor_spec() is Some { 1u8 } else { 0u8 }),
    {
        if self.sensor.is_some() {
            1
        } else {
            0
        }
    }
}

} // verus!
