//! GPIO pins of the Raspberry Pi Pico (RP2040).
use vstd::prelude::*;

verus! {

/// The highest GPIO number of the RP2040 (GPIO0 to GPIO29).
pub const MAX_GPIO_PIN: u8 = 29;

/// The GPIO that drives the built-in light.
pub const BUILTIN_LED_PIN: u8 = 25;

/// What a GPIO pin can do.
#[derive(Debug, Clone, Copy, PartialEq, Eq)]
pub struct GpioPinInfo {
    /// The GPIO number.
    pub pin: u8,
    /// What the board uses the pin for.
    pub name: &'static str,
    /// Whether the pin has a PWM output.
    pub supports_pwm: bool,
    /// Whether the pin is an analog input (GPIO26 to GPIO29).
    pub supports_adc: bool,
}

/// Describes the board's GPIO pins.
pub struct PiPicoGpioManager;

impl PiPicoGpioManager {
    /// Create a new GPIO manager.
    pub fn new() -> (r: PiPicoGpioManager) {
        PiPicoGpioManager
    }

    /// What `pin` can do, or `None` if the chip has no such GPIO.
    pub fn get_pin_info(&self, pin: u8) -> (r: Option<GpioPinInfo>)
        ensures
            r is Some <==> pin <= MAX_GPIO_PIN,
            r matches Some(info) ==> {
                &&& info.pin == pin
                &&& info.supports_pwm
                &&& info.supports_adc == (26 <= pin <= 29)
                &&& info.name@ == (if pin == BUILTIN_LED_PIN {
                    "Built-in LED"@
                } else {
                    "GPIO"@
                })
            },
    {
        if pin <= MAX_GPIO_PIN {
            let name: &'static str = if pin == BUILTIN_LED_PIN {
                "Built-in LED"
            } else {
                "GPIO"
            };
            Some(GpioPinInfo { pin, name, supports_pwm: true, supports_adc: 26 <= pin && pin <= 29 })
        } else {
            None
        }
    }
}

} // verus!
