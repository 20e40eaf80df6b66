use sensor_swarm::backup_domain::{BackupDomain, RegisterFile};
use sensor_swarm::boot_task::dfu_reboot::{enter_dfu_mode, handoff_steps};
use sensor_swarm::boot_task::{
    boot_task_steps, execute_boot_task, init_rtc_and_boot_tasks, process_boot_task,
};
use sensor_swarm::hw::traits::{BackupRegisters, DeviceManagement, Led};
use sensor_swarm::hw::types::{ClaimError, HandoffStep};
use sensor_swarm::hw::{BackupRegister, BootTask};
use sensor_swarm::resource::Claimable;
use sensor_swarm::testing::blackpill_f401::{get_hw_mock, MockBackupRegisters, MockLed};

const ALL_TASKS: [BootTask; 4] = [
    BootTask::NoTask,
    BootTask::UpdateFirmware,
    BootTask::RunSelfTest,
    BootTask::DFUReboot,
];

fn full_handoff() -> Vec<HandoffStep> {
    vec![
        HandoffStep::DisableInterrupts,
        HandoffStep::DeinitializeRtc,
        HandoffStep::DeinitializeClocks,
        HandoffStep::ClearPendingInterrupts,
        HandoffStep::JumpToBootloader,
    ]
}

#[test]
fn test_boot_task_from_u32() {
    assert!(BootTask::from(0) == BootTask::NoTask);
    assert!(BootTask::from(1) == BootTask::UpdateFirmware);
    assert!(BootTask::from(2) == BootTask::RunSelfTest);
    assert!(BootTask::from(3) == BootTask::DFUReboot);
    assert!(BootTask::from(999) == BootTask::NoTask);
}

#[test]
fn test_boot_task_repr() {
    assert!(BootTask::NoTask as u32 == 0);
    assert!(BootTask::UpdateFirmware as u32 == 1);
    assert!(BootTask::RunSelfTest as u32 == 2);
    assert!(BootTask::DFUReboot as u32 == 3);
}

#[test]
fn test_backup_register_repr() {
    assert!(BackupRegister::BootTask as usize == 0);
    assert!(BackupRegister::BootCounter as usize == 1);
}

#[test]
fn test_execute_boot_task_none() {
    let mut device = get_hw_mock();
    execute_boot_task(BootTask::NoTask, &mut device);
    assert!(device.performed_steps().is_empty());
}

#[test]
fn test_execute_boot_task_update_firmware() {
    let mut device = get_hw_mock();
    execute_boot_task(BootTask::UpdateFirmware, &mut device);
    assert!(device.performed_steps().is_empty());
}

#[test]
fn test_execute_boot_task_run_self_test() {
    let mut device = get_hw_mock();
    execute_boot_task(BootTask::RunSelfTest, &mut device);
    assert!(device.performed_steps().is_empty());
}

#[test]
fn decode_is_total_and_fail_safe() {
    for v in [4u32, 5, 7, 16, 255, 256, 999, 0xDF00B007, u32::MAX - 1, u32::MAX] {
        assert_eq!(BootTask::from_raw(v), BootTask::NoTask);
    }
    assert_eq!(BootTask::from_raw(0), BootTask::NoTask);
    assert_eq!(BootTask::from_raw(1), BootTask::UpdateFirmware);
    assert_eq!(BootTask::from_raw(2), BootTask::RunSelfTest);
    assert_eq!(BootTask::from_raw(3), BootTask::DFUReboot);
}

#[test]
fn raw_value_matches_discriminant() {
    for task in ALL_TASKS {
        assert_eq!(task.to_raw(), task as u32);
        assert_eq!(BootTask::from_raw(task.to_raw()), task);
    }
    assert_eq!(BackupRegister::BootTask.index(), 0);
    assert_eq!(BackupRegister::BootCounter.index(), 1);
}

#[test]
fn write_then_read_round_trips_every_task() {
    for task in ALL_TASKS {
        let mut domain = BackupDomain::new(MockBackupRegisters::new());
        domain.boot_task().write(task);
        assert_eq!(domain.boot_task().read_and_clear(), task);
    }
}

#[test]
fn second_read_and_clear_returns_no_task() {
    for task in ALL_TASKS {
        let mut domain = BackupDomain::new(MockBackupRegisters::new());
        let mut accessor = domain.boot_task();
        accessor.write(task);
        assert_eq!(accessor.read_and_clear(), task);
        assert_eq!(accessor.read_and_clear(), BootTask::NoTask);
    }
}

#[test]
fn fresh_bank_reads_no_task_and_stays_zero() {
    let mut domain = BackupDomain::new(MockBackupRegisters::new());
    assert_eq!(domain.boot_task().read_and_clear(), BootTask::NoTask);
    assert_eq!(domain.registers().read_register(0), 0);
    assert_eq!(domain.registers().read_register(1), 0);
}

#[test]
fn update_firmware_is_stored_then_cleared() {
    let mut domain = BackupDomain::new(MockBackupRegisters::new());
    domain.boot_task().write(BootTask::UpdateFirmware);
    assert_eq!(domain.registers().read_register(0), 1);
    assert_eq!(domain.boot_task().read_and_clear(), BootTask::UpdateFirmware);
    assert_eq!(domain.registers().read_register(0), 0);
}

#[test]
fn accessor_leaves_other_registers_alone() {
    let mut bank = MockBackupRegisters::new();
    bank.write_register(1, 77);
    let mut domain = BackupDomain::new(bank);
    domain.boot_task().write(BootTask::RunSelfTest);
    assert_eq!(domain.boot_task().read_and_clear(), BootTask::RunSelfTest);
    assert_eq!(domain.registers().read_register(1), 77);
    assert_eq!(domain.registers().register_count(), 2);
}

#[test]
fn corrupted_slot_reads_as_no_task_and_is_cleared() {
    let mut bank = MockBackupRegisters::new();
    bank.write_register(0, 999);
    let mut domain = BackupDomain::new(bank);
    assert_eq!(domain.boot_task().read_and_clear(), BootTask::NoTask);
    assert_eq!(domain.registers().read_register(0), 0);
}

#[test]
fn dfu_request_survives_reboot_and_runs_handoff_once() {
    let mut device = get_hw_mock();
    let bank = device.create_rtc().unwrap();
    let mut domain = BackupDomain::new(bank);
    domain.boot_task().write(BootTask::DFUReboot);

    // After the warm reset the bank still holds the request.
    let task = domain.boot_task().read_and_clear();
    assert_eq!(task, BootTask::DFUReboot);
    execute_boot_task(task, &mut device);
    assert_eq!(device.performed_steps(), &full_handoff());

    // The request was consumed: the next boot does nothing.
    let task = domain.boot_task().read_and_clear();
    assert_eq!(task, BootTask::NoTask);
    execute_boot_task(task, &mut device);
    assert_eq!(device.performed_steps(), &full_handoff());
}

#[test]
fn enter_dfu_mode_runs_steps_in_order() {
    let mut device = get_hw_mock();
    enter_dfu_mode(&mut device);
    assert_eq!(device.performed_steps(), &full_handoff());
}

#[test]
fn retention_registers_can_be_claimed_once() {
    let mut device = get_hw_mock();
    let first = device.create_rtc();
    assert!(first.is_ok());
    let second = device.create_rtc();
    assert_eq!(second.err(), Some(ClaimError::AlreadyConsumed));
    assert_eq!(ClaimError::AlreadyConsumed.message(), "already consumed");
    assert_eq!(first.unwrap().register_count(), 2);
}

#[test]
fn indicator_can_be_claimed_once_and_stays_usable() {
    let mut device = get_hw_mock();
    let mut led = device.create_led().unwrap();
    assert!(matches!(device.create_led(), Err(ClaimError::AlreadyConsumed)));
    led.on();
    assert!(led.is_lit());
    led.toggle();
    assert!(!led.is_lit());
    led.set_brightness(200);
    assert!(led.is_lit());
    led.off();
    assert!(!led.is_lit());
}

#[test]
fn claims_follow_bring_up_order_independently() {
    let mut device = get_hw_mock();
    assert!(device.create_led().is_ok());
    assert!(device.create_rtc().is_ok());
    assert!(device.create_usb().is_ok());
    assert!(device.create_usb().is_err());
    assert!(device.create_rtc().is_err());
    assert!(device.create_led().is_err());
    assert!(device.performed_steps().is_empty());
}

#[test]
fn claimable_slot_hands_out_its_handle_once() {
    let mut slot = Claimable::new(MockLed::new());
    assert!(slot.is_available());
    assert!(slot.claim().is_ok());
    assert!(!slot.is_available());
    assert!(matches!(slot.claim(), Err(ClaimError::AlreadyConsumed)));
    let mut empty: Claimable<u8> = Claimable::consumed();
    assert!(!empty.is_available());
    assert_eq!(empty.claim(), Err(ClaimError::AlreadyConsumed));
}

#[test]
fn bring_up_consumes_stored_dfu_request() {
    let mut device = get_hw_mock();
    let (task, mut domain) = init_rtc_and_boot_tasks(&mut device).unwrap();
    assert_eq!(task, BootTask::NoTask);
    assert!(device.performed_steps().is_empty());

    domain.boot_task().write(BootTask::DFUReboot);
    assert_eq!(process_boot_task(&mut domain, &mut device), BootTask::DFUReboot);
    assert_eq!(device.performed_steps(), &full_handoff());
    assert_eq!(domain.registers().read_register(0), 0);

    assert_eq!(process_boot_task(&mut domain, &mut device), BootTask::NoTask);
    assert_eq!(device.performed_steps(), &full_handoff());
}

#[test]
fn bring_up_fails_once_registers_are_claimed() {
    let mut device = get_hw_mock();
    assert!(init_rtc_and_boot_tasks(&mut device).is_ok());
    assert!(matches!(
        init_rtc_and_boot_tasks(&mut device),
        Err(ClaimError::AlreadyConsumed)
    ));
    assert!(device.create_led().is_ok());
}

#[test]
fn self_test_request_runs_no_handoff() {
    let mut device = get_hw_mock();
    let mut domain = BackupDomain::new(MockBackupRegisters::new());
    domain.boot_task().write(BootTask::RunSelfTest);
    assert_eq!(process_boot_task(&mut domain, &mut device), BootTask::RunSelfTest);
    assert!(device.performed_steps().is_empty());
    assert_eq!(domain.registers().read_register(0), 0);
}

#[test]
fn step_plans_follow_the_task() {
    assert_eq!(handoff_steps(), full_handoff());
    assert_eq!(boot_task_steps(BootTask::DFUReboot), full_handoff());
    assert!(boot_task_steps(BootTask::NoTask).is_empty());
    assert!(boot_task_steps(BootTask::UpdateFirmware).is_empty());
    assert!(boot_task_steps(BootTask::RunSelfTest).is_empty());
}

#[test]
fn register_file_keeps_values_and_clears_only_slot_zero() {
    let mut values = vec![0u32; 20];
    values[0] = 3;
    values[1] = 41;
    values[19] = 9;
    let mut domain = BackupDomain::new(RegisterFile::from_values(values));
    assert_eq!(domain.registers().register_count(), 20);
    assert_eq!(domain.boot_task().read_and_clear(), BootTask::DFUReboot);
    let mut expected = vec![0u32; 20];
    expected[1] = 41;
    expected[19] = 9;
    assert_eq!(domain.registers().values(), &expected);
}
