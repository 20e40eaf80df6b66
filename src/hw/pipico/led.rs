//! Indicator lights of the Raspberry Pi Pico.
use vstd::prelude::*;

verus! {

/// Creates and tracks the board's indicator lights; the built-in light on
/// pin 25 is the only one.
pub struct PiPicoLedManager;

impl PiPicoLedManager {
    /// A manager with no light created yet.
    pub fn new() -> (r: PiPicoLedManager) {
        PiPicoLedManager
    }
}

/// A light dimmed by pulse-width modulation.
pub struct PiPicoPwmLed {}

impl PiPicoPwmLed {
    /// Dimmable lights are not supported on this board: this always fails.
    pub fn new() -> (r: Result<PiPicoPwmLed, &'static str>)
        ensures
            r is Err,
    {
        Err("PWM LED support is not available on RP2040")
    }
}

} // verus!
