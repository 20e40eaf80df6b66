//! The commands understood over USB serial.
use vstd::prelude::*;

use vstd::string::StringSliceAdditionalSpecFns;
use vstd::utf8::{decode_utf8, encode_utf8, valid_utf8};

use crate::ascii::{matches_word, same_word};
use crate::text::{text64_bytes, text64_new, text64_push_str, trim_str, trimmed, utf8_str};

verus! {

/// Maximum command length in bytes.
pub const MAX_COMMAND_LENGTH: usize = 256;

/// Represents different types of commands that can be sent over USB.
#[derive(Debug, PartialEq, Eq)]
pub enum UsbCommand {
    /// Read all available sensor data.
    ReadSensors,
    /// Read specific sensor data by type.
    ReadSensorType(SensorType),
    /// Get device debug information.
    GetDebugInfo,
    /// Get device status.
    GetStatus,
    /// Ping command for connectivity testing.
    Ping,
    /// Get list of available commands.
    Help,
    /// Reboot the CPU.
    RebootCpu,
    /// Reboot the CPU to DFU mode.
    RebootCpuToDfu,
    /// Text that names no command (kept if it fits in 64 bytes, else empty),
    /// or `INVALID_UTF8` for bytes that are not UTF-8.
    Unknown(heapless::String<64>),
}

/// The command that `text` names, if it names one. Words are compared
/// whole and without regard to ASCII case.
pub open spec fn known_usb_command(text: Seq<u8>) -> Option<UsbCommand> {
    if same_word(text, "READ_SENSORS".spec_bytes()) || same_word(text, "SENSORS".spec_bytes()) {
        Some(UsbCommand::ReadSensors)
    } else if same_word(text, "READ_TEMPERATURE".spec_bytes()) || same_word(
        text,
        "TEMP".spec_bytes(),
    ) {
        Some(UsbCommand::ReadSensorType(SensorType::Temperature))
    } else if same_word(text, "READ_HUMIDITY".spec_bytes()) || same_word(
        text,
        "HUMIDITY".spec_bytes(),
    ) {
        Some(UsbCommand::ReadSensorType(SensorType::Humidity))
    } else if same_word(text, "READ_LIGHT".spec_bytes()) || same_word(text, "LIGHT".spec_bytes()) {
        Some(UsbCommand::ReadSensorType(SensorType::Light))
    } else if same_word(text, "READ_PRESSURE".spec_bytes()) || same_word(
        text,
        "PRESSURE".spec_bytes(),
    ) {
        Some(UsbCommand::ReadSensorType(SensorType::Pressure))
    } else if same_word(text, "DEBUG".spec_bytes()) || same_word(text, "DEBUG_INFO".spec_bytes()) {
        Some(UsbCommand::GetDebugInfo)
    } else if same_word(text, "STATUS".spec_bytes()) {
        Some(UsbCommand::GetStatus)
    } else if same_word(text, "PING".spec_bytes()) {
        Some(UsbCommand::Ping)
    } else if same_word(text, "HELP".spec_bytes()) || same_word(text, "?".spec_bytes()) {
        Some(UsbCommand::Help)
    } else if same_word(text, "REBOOT".spec_bytes()) || same_word(text, "REBOOT_CPU".spec_bytes()) {
        Some(UsbCommand::RebootCpu)
    } else if same_word(text, "REBOOT_DFU".spec_bytes()) || same_word(
        text,
        "REBOOT_CPU_DFU".spec_bytes(),
    ) || same_word(text, "DFU".spec_bytes()) {
        Some(UsbCommand::RebootCpuToDfu)
    } else {
        None
    }
}

/// The command text of a received buffer: its UTF-8 text without leading
/// and trailing white space, as bytes.
pub open spec fn command_text(buffer: Seq<u8>) -> Seq<u8> {
    encode_utf8(trimmed(decode_utf8(buffer)))
}

/// What an unknown command keeps of its text: all of it when it fits in
/// 64 bytes, nothing otherwise.
pub open spec fn kept_command_text(text: Seq<u8>) -> Seq<u8> {
    if text.len() <= 64 {
        text
    } else {
        Seq::empty()
    }
}

/// Types of sensors that can be queried individually.
#[derive(Debug, Clone, Copy, PartialEq, Eq, Structural)]
pub enum SensorType {
    Temperature,
    Humidity,
    Light,
    Pressure,
}

/// Turns received command text into commands; it keeps no state.
pub struct CommandParser;

impl CommandParser {
    /// Create a new command parser.
    pub fn new() -> (r: CommandParser) {
        CommandParser
    }

    /// Parses a received command: bytes that are not UTF-8 give
    /// `Unknown("INVALID_UTF8")`; otherwise the text, trimmed of white space,
    /// is matched against the command words without regard to ASCII case.
    pub fn parse_command(&self, command_buffer: &[u8]) -> (r: UsbCommand)
        ensures
            !valid_utf8(command_buffer@) ==> (r matches UsbCommand::Unknown(text) && text64_bytes(
                text,
            ) == "INVALID_UTF8".spec_bytes()),
            valid_utf8(command_buffer@) ==> (known_usb_command(command_text(command_buffer@))
                matches Some(c) ==> r == c),
            valid_utf8(command_buffer@) ==> (known_usb_command(command_text(command_buffer@))
                is None ==> (r matches UsbCommand::Unknown(text) && text64_bytes(text)
                == kept_command_text(command_text(command_buffer@)))),
    {
        let command_str = match utf8_str(command_buffer) {
            Some(s) => {
                proof {
                    vstd::utf8::encode_utf8_decode_utf8(s@);
                }
                trim_str(s)
            },
            None => {
                let mut error_msg = text64_new();
                proof {
                    reveal_strlit("INVALID_UTF8");
                    vstd::string::is_ascii_spec_bytes("INVALID_UTF8");
                }
                let _ = text64_push_str(&mut error_msg, "INVALID_UTF8");
                return UsbCommand::Unknown(error_msg);
            },
        };
        let text = command_str.as_bytes();
        if matches_word(text, "READ_SENSORS".as_bytes()) || matches_word(text, "SENSORS".as_bytes()) {
            UsbCommand::ReadSensors
        } else if matches_word(text, "READ_TEMPERATURE".as_bytes()) || matches_word(
            text,
            "TEMP".as_bytes(),
        ) {
            UsbCommand::ReadSensorType(SensorType::Temperature)
        } else if matches_word(text, "READ_HUMIDITY".as_bytes()) || matches_word(
            text,
            "HUMIDITY".as_bytes(),
        ) {
            UsbCommand::ReadSensorType(SensorType::Humidity)
        } else if matches_word(text, "READ_LIGHT".as_bytes()) || matches_word(
            text,
            "LIGHT".as_bytes(),
        ) {
            UsbCommand::ReadSensorType(SensorType::Light)
        } else if matches_word(text, "READ_PRESSURE".as_bytes()) || matches_word(
            text,
            "PRESSURE".as_bytes(),
        ) {
            UsbCommand::ReadSensorType(SensorType::Pressure)
        } else if matches_word(text, "DEBUG".as_bytes()) || matches_word(
            text,
            "DEBUG_INFO".as_bytes(),
        ) {
            UsbCommand::GetDebugInfo
        } else if matches_word(text, "STATUS".as_bytes()) {
            UsbCommand::GetStatus
        } else if matches_word(text, "PING".as_bytes()) {
            UsbCommand::Ping
        } else if matches_word(text, "HELP".as_bytes()) || matches_word(text, "?".as_bytes()) {
            UsbCommand::Help
        } else if matches_word(text, "REBOOT".as_bytes()) || matches_word(
            text,
            "REBOOT_CPU".as_bytes(),
        ) {
            UsbCommand::RebootCpu
        } else if matches_word(text, "REBOOT_DFU".as_bytes()) || matches_word(
            text,
            "REBOOT_CPU_DFU".as_bytes(),
        ) || matches_word(text, "DFU".as_bytes()) {
            UsbCommand::RebootCpuToDfu
        } else {
            let mut unknown_cmd = text64_new();
            let _ = text64_push_str(&mut unknown_cmd, command_str);
            UsbCommand::Unknown(unknown_cmd)
        }
    }
}

impl Default for CommandParser {
    fn default() -> (r: CommandParser) {
        CommandParser::new()
    }
}

} // verus!
