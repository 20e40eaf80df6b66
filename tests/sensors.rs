use sensor_swarm::sensors::traits::{
    DataValidity, EnvironmentalData, EnvironmentalSensor, SensorError,
};
use sensor_swarm::terminal::Terminal;
use sensor_swarm::usb::{UsbCdc, UsbCdcWrapper};
use sensor_swarm::usb_commands::parser::CommandParser;
use sensor_swarm::usb_commands::responses::{DebugInfo, ResponseFormatter};
use sensor_swarm::usb_commands::sensor_commands::SensorCommandHandler;
use sensor_swarm::usb_commands::system_commands::SystemCommandHandler;

struct FixedSensor {
    ready: bool,
}

impl EnvironmentalSensor for FixedSensor {
    fn read(&mut self) -> Result<EnvironmentalData, SensorError> {
        let mut data = EnvironmentalData::new();
        data.set_pressure_pa(101325);
        Ok(data)
    }
    fn initialize(&mut self) -> Result<(), SensorError> {
        self.ready = true;
        Ok(())
    }
    fn is_ready(&self) -> bool {
        self.ready
    }
    fn sleep(&mut self) -> Result<(), SensorError> {
        Err(SensorError::NotReady)
    }
    fn wake(&mut self) -> Result<(), SensorError> {
        Ok(())
    }
    fn get_capabilities(&self) -> DataValidity {
        DataValidity::new().with_pressure_valid(true)
    }
    fn self_test(&mut self) -> Result<(), SensorError> {
        Ok(())
    }
    fn get_min_reading_interval_ms(&self) -> u32 {
        1000
    }
}

#[test]
fn validity_flags() {
    let none = DataValidity::new();
    assert!(!none.has_valid_data());
    assert!(!none.all_data_valid());
    let all = DataValidity::all_valid();
    assert!(all.has_valid_data());
    assert!(all.all_data_valid());
    let some = DataValidity::new().with_humidity_valid(true);
    assert!(some.has_valid_data());
    assert!(!some.all_data_valid());
    assert!(some.humidity_valid());
    assert!(!some.temperature_valid());
    assert!(!all.with_light_valid(false).all_data_valid());
}

#[test]
fn setting_pressure_marks_it_valid() {
    let mut data = EnvironmentalData::default();
    assert_eq!(data, EnvironmentalData::new());
    data.set_pressure_pa(101325);
    assert_eq!(data.pressure_pa, 101325);
    assert!(data.validity.pressure_valid());
    assert!(!data.validity.temperature_valid());
    assert_eq!(data.temperature_celsius_x100, 0);
}

#[test]
fn sensor_handler_counts_and_readiness() {
    let mut handler: SensorCommandHandler<FixedSensor> = SensorCommandHandler::new();
    assert_eq!(handler.sensor_count(), 0);
    assert!(!handler.is_sensor_ready());
    handler.set_sensor(FixedSensor { ready: true });
    assert_eq!(handler.sensor_count(), 1);
    assert!(handler.is_sensor_ready());
    handler.set_sensor(FixedSensor { ready: false });
    assert_eq!(handler.sensor_count(), 1);
    assert!(!handler.is_sensor_ready());
}

#[test]
fn system_handler_reports_zero_figures() {
    let handler = SystemCommandHandler::new();
    assert_eq!(handler.get_uptime_ms(), 0);
    assert_eq!(handler.get_free_memory(), 0);
    let _parser = CommandParser::new();
    let _formatter = ResponseFormatter::new();
    let info = DebugInfo { uptime_ms: 5, free_memory: 6, usb_connected: true, sensor_count: 1 };
    assert_eq!(info.sensor_count, 1);
}

#[test]
fn terminal_refuses_traffic_until_initialised() {
    let mut terminal = Terminal::new(UsbCdcWrapper::new(()));
    assert!(!terminal.is_connected());
    assert!(terminal.write_bytes(b"hi").is_err());
    let mut buffer = [0u8; 4];
    assert!(terminal.read_bytes(&mut buffer).is_err());
    assert!(terminal.init().is_ok());
    assert!(terminal.is_connected());
    assert_eq!(terminal.write_bytes(b"hi"), Ok(2));
    assert_eq!(terminal.read_bytes(&mut buffer), Ok(0));
}

#[test]
fn usb_wrapper_connects_on_use() {
    let mut link = UsbCdcWrapper::new(());
    assert!(!link.is_connected());
    assert_eq!(link.write(b"abc"), Ok(3));
    assert!(link.is_connected());
    let mut other = UsbCdcWrapper::new(());
    other.wait_connection();
    assert!(other.is_connected());
}

#[test]
fn log_lines_fit_or_are_refused() {
    let mut terminal = Terminal::new(UsbCdcWrapper::new(()));
    assert!(terminal.write_logs("boot").is_err());
    terminal.wait_connection();
    assert!(terminal.is_connected());
    assert_eq!(terminal.write_logs("boot"), Ok(()));
    let fits = "a".repeat(510);
    assert_eq!(terminal.write_logs(&fits), Ok(()));
    let too_long = "a".repeat(511);
    assert!(terminal.write_logs(&too_long).is_err());
}
