use sensor_swarm::dfu_reboot::{bootloader_vector_addresses, DFU_BOOTLOADER_ADDRESS, DFU_MAGIC_VALUE};

#[test]
fn test_dfu_constants() {
    assert_eq!(DFU_BOOTLOADER_ADDRESS, 0x1FFF0000);
    assert_eq!(DFU_MAGIC_VALUE, 0xDF00B007);
}

#[test]
fn vector_table_entries_are_consecutive_words() {
    assert_eq!(bootloader_vector_addresses(), (0x1FFF0000, 0x1FFF0004));
}
