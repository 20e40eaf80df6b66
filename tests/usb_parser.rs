use sensor_swarm::usb_commands::parser::{CommandParser, SensorType, UsbCommand};

fn unknown_text(command: UsbCommand) -> String {
    match command {
        UsbCommand::Unknown(text) => text.as_str().to_string(),
        other => panic!("expected an unknown command, got {:?}", other),
    }
}

#[test]
fn usb_words_in_any_case() {
    let parser = CommandParser::new();
    assert_eq!(parser.parse_command(b"READ_SENSORS"), UsbCommand::ReadSensors);
    assert_eq!(parser.parse_command(b"sensors"), UsbCommand::ReadSensors);
    assert_eq!(
        parser.parse_command(b"Temp"),
        UsbCommand::ReadSensorType(SensorType::Temperature)
    );
    assert_eq!(
        parser.parse_command(b"read_humidity"),
        UsbCommand::ReadSensorType(SensorType::Humidity)
    );
    assert_eq!(parser.parse_command(b"LIGHT"), UsbCommand::ReadSensorType(SensorType::Light));
    assert_eq!(
        parser.parse_command(b"read_pressure"),
        UsbCommand::ReadSensorType(SensorType::Pressure)
    );
    assert_eq!(parser.parse_command(b"debug_info"), UsbCommand::GetDebugInfo);
    assert_eq!(parser.parse_command(b"status"), UsbCommand::GetStatus);
    assert_eq!(parser.parse_command(b"ping"), UsbCommand::Ping);
    assert_eq!(parser.parse_command(b"?"), UsbCommand::Help);
    assert_eq!(parser.parse_command(b"reboot_cpu"), UsbCommand::RebootCpu);
    assert_eq!(parser.parse_command(b"reboot_cpu_dfu"), UsbCommand::RebootCpuToDfu);
    assert_eq!(parser.parse_command(b"DFU"), UsbCommand::RebootCpuToDfu);
}

#[test]
fn usb_command_text_is_trimmed() {
    let parser = CommandParser::new();
    assert_eq!(parser.parse_command(b"  PING\r\n"), UsbCommand::Ping);
    assert_eq!(unknown_text(parser.parse_command(b"\tHELLO there \n")), "HELLO there");
    assert_eq!(unknown_text(parser.parse_command(b"   ")), "");
}

#[test]
fn usb_invalid_utf8_is_reported() {
    let parser = CommandParser::new();
    assert_eq!(unknown_text(parser.parse_command(&[0x50, 0xFF, 0x4E])), "INVALID_UTF8");
}

#[test]
fn usb_overlong_unknown_text_is_dropped() {
    let parser = CommandParser::default();
    let long = "Z".repeat(65);
    assert_eq!(unknown_text(parser.parse_command(long.as_bytes())), "");
    let fits = "Z".repeat(64);
    assert_eq!(unknown_text(parser.parse_command(fits.as_bytes())), fits);
}
