//! The commands understood at the terminal.
use vstd::prelude::*;

use vstd::string::StringSliceAdditionalSpecFns;

use crate::ascii::{matches_word, same_word};
use crate::text::{text64_bytes, text64_new, text64_push_str};

verus! {

/// The longest command text, in bytes, that an unknown command keeps.
pub const MAX_UNKNOWN_LENGTH: usize = 64;

/// A command typed at the terminal.
#[derive(Debug, PartialEq, Eq)]
pub enum Command {
    /// Read all available sensor data.
    ReadSensors,
    /// Read specific sensor data by type.
    ReadSensorType(SensorType),
    /// Get device debug information.
    GetDebugInfo,
    /// Get device status.
    GetStatus,
    /// Ping command for connectivity testing.
    Ping,
    /// Get list of available commands.
    Help,
    /// Show firmware version.
    Version,
    /// Reboot the CPU.
    Reboot,
    /// Reboot the CPU to DFU mode.
    RebootToDfu,
    /// Text that names no command; it is kept if it fits in
    /// `MAX_UNKNOWN_LENGTH` bytes and left empty otherwise.
    Unknown(heapless::String<64>),
}

/// The command that `text` names, if it names one. Words are compared
/// whole and without regard to ASCII case.
pub open spec fn known_command(text: Seq<u8>) -> Option<Command> {
    if same_word(text, "sensors".spec_bytes()) || same_word(text, "read_sensors".spec_bytes()) {
        Some(Command::ReadSensors)
    } else if same_word(text, "temp".spec_bytes()) || same_word(text, "temperature".spec_bytes()) {
        Some(Command::ReadSensorType(SensorType::Temperature))
    } else if same_word(text, "humidity".spec_bytes()) {
        Some(Command::ReadSensorType(SensorType::Humidity))
    } else if same_word(text, "light".spec_bytes()) {
        Some(Command::ReadSensorType(SensorType::Light))
    } else if same_word(text, "pressure".spec_bytes()) {
        Some(Command::ReadSensorType(SensorType::Pressure))
    } else if same_word(text, "debug".spec_bytes()) || same_word(text, "debug_info".spec_bytes()) {
        Some(Command::GetDebugInfo)
    } else if same_word(text, "status".spec_bytes()) {
        Some(Command::GetStatus)
    } else if same_word(text, "ping".spec_bytes()) {
        Some(Command::Ping)
    } else if same_word(text, "help".spec_bytes()) || same_word(text, "?".spec_bytes()) {
        Some(Command::Help)
    } else if same_word(text, "version".spec_bytes()) {
        Some(Command::Version)
    } else if same_word(text, "reboot".spec_bytes()) {
        Some(Command::Reboot)
    } else if same_word(text, "dfu".spec_bytes()) || same_word(text, "reboot_dfu".spec_bytes()) {
        Some(Command::RebootToDfu)
    } else {
        None
    }
}

/// What an unknown command keeps of its text: all of it when it fits in
/// `MAX_UNKNOWN_LENGTH` bytes, nothing otherwise.
pub open spec fn kept_text(text: Seq<u8>) -> Seq<u8> {
    if text.len() <= MAX_UNKNOWN_LENGTH {
        text
    } else {
        Seq::empty()
    }
}

/// Types of sensors that can be queried individually.
#[derive(Debug, Clone, Copy, PartialEq, Eq, Structural)]
pub enum SensorType {
    Temperature,
    Humidity,
    Light,
    Pressure,
}

/// Turns typed command text into commands; it keeps no state.
pub struct CommandParser;

impl CommandParser {
    /// Create a new command parser.
    pub fn new() -> (r: CommandParser) {
        CommandParser
    }

    /// The command that `command_str` names; anything else becomes
    /// `Unknown`, holding the text when it fits and nothing otherwise.
    pub fn parse(&self, command_str: &str) -> (r: Command)
        ensures
            known_command(command_str.spec_bytes()) matches Some(c) ==> r == c,
            known_command(command_str.spec_bytes()) is None ==> (r matches Command::Unknown(text)
                && text64_bytes(text) == kept_text(command_str.spec_bytes())),
    {
        let text = command_str.as_bytes();
        if matches_word(text, "sensors".as_bytes()) || matches_word(text, "read_sensors".as_bytes()) {
            Command::ReadSensors
        } else if matches_word(text, "temp".as_bytes()) || matches_word(
            text,
            "temperature".as_bytes(),
        ) {
            Command::ReadSensorType(SensorType::Temperature)
        } else if matches_word(text, "humidity".as_bytes()) {
            Command::ReadSensorType(SensorType::Humidity)
        } else if matches_word(text, "light".as_bytes()) {
            Command::ReadSensorType(SensorType::Light)
        } else if matches_word(text, "pressure".as_bytes()) {
            Command::ReadSensorType(SensorType::Pressure)
        } else if matches_word(text, "debug".as_bytes()) || matches_word(
            text,
            "debug_info".as_bytes(),
        ) {
            Command::GetDebugInfo
        } else if matches_word(text, "status".as_bytes()) {
            Command::GetStatus
        } else if matches_word(text, "ping".as_bytes()) {
            Command::Ping
        } else if matches_word(text, "help".as_bytes()) || matches_word(text, "?".as_bytes()) {
            Command::Help
        } else if matches_word(text, "version".as_bytes()) {
            Command::Version
        } else if matches_word(text, "reboot".as_bytes()) {
            Command::Reboot
        } else if matches_word(text, "dfu".as_bytes()) || matches_word(
            text,
            "reboot_dfu".as_bytes(),
        ) {
            Command::RebootToDfu
        } else {
            let mut unknown_cmd = text64_new();
            let _ = text64_push_str(&mut unknown_cmd, command_str);
            Command::Unknown(unknown_cmd)
        }
    }
}

impl Default for CommandParser {
    fn default() -> (r: CommandParser) {
        CommandParser::new()
    }
}

} // verus!
