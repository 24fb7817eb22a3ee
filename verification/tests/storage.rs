use packetbox::cli::{Cli, CliError};
use packetbox::context::SystemContext;
use packetbox::state::SystemState;
use packetbox::storage::{
    init_storage_devices, BlockDevice, EmicStorage, SdCardStorage, StorageError,
};
use packetbox::uart::Uart0;

fn feed(cli: &mut Cli, uart: &mut Uart0, sys: &mut SystemContext, input: &str) -> Result<(), CliError> {
    let mut last = Ok(());
    for b in input.bytes() {
        last = cli.process_byte(b, uart, sys);
    }
    last
}

fn sys_with(emic: Option<u64>, sd: Option<u64>) -> SystemContext {
    let mut sys = SystemContext::new();
    let (e, s) = init_storage_devices(emic, sd).unwrap();
    sys.storage.emic = e;
    sys.storage.sd = s;
    sys
}

#[test]
fn emic_capacity_is_capped_at_25_mib() {
    let mut d = EmicStorage::new();
    let r = d.init(60000);
    assert!(matches!(r, Ok(51200)));
    assert_eq!(d.block_count(), Some(51200));
}

#[test]
fn emic_reported_capacity_below_cap_wins() {
    let mut d = EmicStorage::new();
    assert!(matches!(d.init(1000), Ok(1000)));
    assert_eq!(d.block_count(), Some(1000));
}

#[test]
fn sd_capacity_is_capped_by_legacy_partition_table() {
    let mut d = SdCardStorage::new();
    let r = d.init(u64::MAX);
    assert!(matches!(r, Ok(4724464025)));
    assert_eq!(d.block_count(), Some(4724464025));
    // Never above the ceiling of 2.2 * 1024^4 / 512 blocks.
    assert!(d.block_count().unwrap() <= 4724464026);
}

#[test]
fn sd_reported_capacity_below_cap_wins() {
    let mut d = SdCardStorage::new();
    assert!(matches!(d.init(100_000_000), Ok(100_000_000)));
}

#[test]
fn block_count_is_none_before_init() {
    let d = EmicStorage::new();
    assert_eq!(d.block_count(), None);
    let s = SdCardStorage::new();
    assert_eq!(s.block_count(), None);
}

#[test]
fn read_block_with_lba_out_of_range_is_invalid_lba() {
    let mut d = EmicStorage::new();
    d.init(100).unwrap();
    // Whatever the buffer length, including too short, the bound wins.
    for len in [0usize, 10, 512, 600] {
        let mut buf = vec![7u8; len];
        let r = d.read_block(100, &mut buf);
        assert!(matches!(r, Err(StorageError::InvalidLba)));
        assert_eq!(buf, vec![7u8; len]);
    }
}

#[test]
fn read_block_with_short_buffer_is_invalid_buffer_length() {
    let mut d = SdCardStorage::new();
    d.init(100).unwrap();
    let mut buf = vec![7u8; 10];
    let r = d.read_block(0, &mut buf);
    assert!(matches!(r, Err(StorageError::InvalidBufferLength)));
    assert_eq!(buf, vec![7u8; 10]);
}

#[test]
fn read_block_before_init_is_not_initialized() {
    let mut d = EmicStorage::new();
    let mut buf = vec![0u8; 512];
    let r = d.read_block(0, &mut buf);
    assert!(matches!(r, Err(StorageError::NotInitialized)));
}

#[test]
fn read_block_in_range_succeeds() {
    let mut d = EmicStorage::new();
    d.init(100).unwrap();
    let mut buf = vec![0u8; 512];
    assert!(d.read_block(99, &mut buf).is_ok());
    assert_eq!(buf.len(), 512);
}

#[test]
fn write_block_mirrors_the_read_checks() {
    let mut d = SdCardStorage::new();
    let data = vec![0u8; 512];
    assert!(matches!(d.write_block(0, &data), Err(StorageError::NotInitialized)));
    d.init(100).unwrap();
    assert!(matches!(d.write_block(100, &data), Err(StorageError::InvalidLba)));
    let short = vec![0u8; 100];
    assert!(matches!(d.write_block(0, &short), Err(StorageError::InvalidBufferLength)));
    assert!(d.write_block(99, &data).is_ok());
}

#[test]
fn probing_failures_never_escalate() {
    let r = init_storage_devices(None, None);
    let (e, s) = r.unwrap();
    assert!(e.is_none());
    assert!(s.is_none());

    let (e, s) = init_storage_devices(None, Some(500)).unwrap();
    assert!(e.is_none());
    assert_eq!(s.unwrap().block_count(), Some(500));

    let (e, s) = init_storage_devices(Some(500), None).unwrap();
    assert_eq!(e.unwrap().block_count(), Some(500));
    assert!(s.is_none());
}

#[test]
fn storage_error_names_match_their_variants() {
    assert_eq!(StorageError::InvalidLba.name(), "InvalidLba");
    assert_eq!(StorageError::NotInitialized.name(), "NotInitialized");
    assert_eq!(StorageError::InvalidBufferLength.name(), "InvalidBufferLength");
    assert_eq!(StorageError::Timeout.name(), "Timeout");
}

#[test]
fn storage_info_sd_absent_shows_not_initialized_only() {
    let mut cli = Cli::new();
    let mut uart = Uart0::new(0x1000_0000);
    let mut sys = sys_with(Some(60000), None);
    let r = feed(&mut cli, &mut uart, &mut sys, "storage info sd\r");
    assert!(r.is_ok());
    assert_eq!(
        uart.transmitted().as_str(),
        "storage info sd\r\nSD Card Info:\n  Status: Not Initialized\n> ",
    );
    assert!(!uart.transmitted().contains("Total Blocks"));
    assert!(!uart.transmitted().contains("Capacity"));
}

#[test]
fn storage_info_emic_shows_capped_capacity() {
    let mut cli = Cli::new();
    let mut uart = Uart0::new(0x1000_0000);
    let mut sys = sys_with(Some(60000), None);
    let r = feed(&mut cli, &mut uart, &mut sys, "storage info emic\r");
    assert!(r.is_ok());
    let expected = "storage info emic\r\neMMC 1.0 Info:\n  Status: Initialized\n  Total Blocks: 51200\n  Capacity: 26214400 Bytes (approx 25 MB)\n> ";
    assert_eq!(uart.transmitted().as_str(), expected);
}

#[test]
fn storage_info_sd_shows_units_and_cap_note() {
    let mut cli = Cli::new();
    let mut uart = Uart0::new(0x1000_0000);
    let mut sys = sys_with(None, Some(u64::MAX));
    let r = feed(&mut cli, &mut uart, &mut sys, "storage info sd\r");
    assert!(r.is_ok());
    let expected = "storage info sd\r\nSD Card Info:\n  Status: Initialized\n  Total Blocks: 4724464025\n  Capacity: 2418925580800 Bytes (approx 2306867 MB / 2252 GB / 2 TB - capped by MBR at ~2.2TB)\n> ";
    assert_eq!(uart.transmitted().as_str(), expected);
}

#[test]
fn storage_without_info_prints_usage() {
    let mut cli = Cli::new();
    let mut uart = Uart0::new(0x1000_0000);
    let mut sys = sys_with(Some(60000), Some(500));
    let r = feed(&mut cli, &mut uart, &mut sys, "storage\r");
    assert!(r.is_ok());
    let expected = "storage\r\nUsage: storage info <emic|sd>\nUsage: storage <emic|sd> <read|write> <lba> [data_byte]\n> ";
    assert_eq!(uart.transmitted().as_str(), expected);
}

#[test]
fn storage_with_unknown_device_reports_it_and_succeeds() {
    let mut cli = Cli::new();
    let mut uart = Uart0::new(0x1000_0000);
    let mut sys = sys_with(Some(60000), Some(500));
    let r = feed(&mut cli, &mut uart, &mut sys, "storage info usb\r");
    assert!(r.is_ok());
    assert_eq!(
        uart.transmitted().as_str(),
        "storage info usb\r\nError: Unknown device type 'usb'. Use 'emic' or 'sd'.\n> ",
    );
}

#[test]
fn system_state_starts_initializing() {
    let sys = SystemContext::new();
    assert_eq!(
        packetbox::state::get_system_state(&sys.state_reg),
        SystemState::Initializing,
    );
}
