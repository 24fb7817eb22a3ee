use packetbox::cli::{Cli, CliError};
use packetbox::context::SystemContext;
use packetbox::psu::PsuMonitor;
use packetbox::state::{set_system_state, SystemState};
use packetbox::storage::init_storage_devices;
use packetbox::uart::Uart0;

fn fresh() -> (Cli, Uart0, SystemContext) {
    (Cli::new(), Uart0::new(0x1000_0000), SystemContext::new())
}

fn sys_with(emic: Option<u64>, sd: Option<u64>) -> SystemContext {
    let mut sys = SystemContext::new();
    let (e, s) = init_storage_devices(emic, sd).unwrap();
    sys.storage.emic = e;
    sys.storage.sd = s;
    sys
}

fn feed(cli: &mut Cli, uart: &mut Uart0, sys: &mut SystemContext, input: &str) -> Result<(), CliError> {
    let mut last = Ok(());
    for b in input.bytes() {
        last = cli.process_byte(b, uart, sys);
    }
    last
}

#[test]
fn echo_printable_sequence() {
    let (mut cli, mut uart, mut sys) = fresh();
    let r = feed(&mut cli, &mut uart, &mut sys, "hello world");
    assert!(r.is_ok());
    assert_eq!(uart.transmitted().as_str(), "hello world");
}

#[test]
fn echo_every_printable_byte_once() {
    let (mut cli, mut uart, mut sys) = fresh();
    let all: String = (0x20u8..=0x7eu8).map(|b| b as char).collect();
    let bytes: Vec<u8> = all.bytes().collect();
    let r = cli.process_bytes(&bytes, &mut uart, &mut sys);
    assert!(r.is_ok());
    assert_eq!(uart.transmitted().as_str(), all.as_str());
}

#[test]
fn buffer_full_yields_bell_and_error() {
    let (mut cli, mut uart, mut sys) = fresh();
    for _ in 0..128 {
        assert!(cli.process_byte(b'a', &mut uart, &mut sys).is_ok());
    }
    let r = cli.process_byte(b'b', &mut uart, &mut sys);
    assert!(matches!(r, Err(CliError::BufferFull)));
    let mut expected: String = "a".repeat(128);
    expected.push('\u{7}');
    assert_eq!(uart.transmitted().as_str(), expected.as_str());
    // The line content is unchanged: submitting it dispatches 128 a's, not 129.
    let r = cli.process_byte(0x0d, &mut uart, &mut sys);
    assert!(matches!(r, Err(CliError::UnknownCommand)));
    let tail = format!("\r\nError: Unknown command '{}'. Type 'help'.\n> ", "a".repeat(128));
    assert!(uart.transmitted().ends_with(tail.as_str()));
}

#[test]
fn backspace_erases_last_byte() {
    let (mut cli, mut uart, mut sys) = fresh();
    feed(&mut cli, &mut uart, &mut sys, "ab").unwrap();
    cli.process_byte(0x7f, &mut uart, &mut sys).unwrap();
    assert_eq!(uart.transmitted().as_str(), "ab\u{8} \u{8}");
    let r = feed(&mut cli, &mut uart, &mut sys, "c\r");
    assert!(matches!(r, Err(CliError::UnknownCommand)));
    assert!(uart.transmitted().contains("Unknown command 'ac'"));
}

#[test]
fn backspace_on_empty_line_does_nothing() {
    let (mut cli, mut uart, mut sys) = fresh();
    assert!(cli.process_byte(0x08, &mut uart, &mut sys).is_ok());
    assert_eq!(uart.transmitted().as_str(), "");
}

#[test]
fn line_feed_on_empty_line_prints_prompt_only() {
    let (mut cli, mut uart, mut sys) = fresh();
    assert!(cli.process_byte(0x0a, &mut uart, &mut sys).is_ok());
    assert_eq!(uart.transmitted().as_str(), "> ");
}

#[test]
fn line_feed_submits_nonempty_line() {
    let (mut cli, mut uart, mut sys) = fresh();
    feed(&mut cli, &mut uart, &mut sys, "help").unwrap();
    let r = cli.process_byte(0x0a, &mut uart, &mut sys);
    assert!(r.is_ok());
    assert!(uart.transmitted().contains("Available commands:"));
    assert!(uart.transmitted().ends_with("> "));
}

#[test]
fn other_control_bytes_are_ignored() {
    let (mut cli, mut uart, mut sys) = fresh();
    for b in [0x00u8, 0x07, 0x09, 0x1b, 0x1f] {
        assert!(cli.process_byte(b, &mut uart, &mut sys).is_ok());
    }
    assert_eq!(uart.transmitted().as_str(), "");
}

#[test]
fn byte_beyond_ascii_is_invalid_data() {
    let (mut cli, mut uart, mut sys) = fresh();
    let r = cli.process_byte(0x80, &mut uart, &mut sys);
    assert!(matches!(r, Err(CliError::InvalidDataFormat)));
    assert_eq!(uart.transmitted().as_str(), "");
    let r = cli.process_byte(0xff, &mut uart, &mut sys);
    assert!(matches!(r, Err(CliError::InvalidDataFormat)));
}

#[test]
fn empty_line_is_a_no_op() {
    let (mut cli, mut uart, mut sys) = fresh();
    let r = cli.process_byte(0x0d, &mut uart, &mut sys);
    assert!(r.is_ok());
    assert_eq!(uart.transmitted().as_str(), "\r\n> ");
}

#[test]
fn whitespace_only_line_is_a_no_op() {
    let (mut cli, mut uart, mut sys) = fresh();
    let r = feed(&mut cli, &mut uart, &mut sys, "   \r");
    assert!(r.is_ok());
    assert_eq!(uart.transmitted().as_str(), "   \r\n> ");
}

#[test]
fn dispatch_is_case_sensitive() {
    let (mut cli, mut uart, mut sys) = fresh();
    let r = feed(&mut cli, &mut uart, &mut sys, "Help\r");
    assert!(matches!(r, Err(CliError::UnknownCommand)));
    assert!(uart.transmitted().contains("Error: Unknown command 'Help'. Type 'help'.\n"));

    let (mut cli2, mut uart2, mut sys2) = fresh();
    let r = feed(&mut cli2, &mut uart2, &mut sys2, "help\r");
    assert!(r.is_ok());
    assert!(uart2.transmitted().contains("Available commands:"));
}

#[test]
fn eleven_arguments_are_too_many() {
    let (mut cli, mut uart, mut sys) = fresh();
    let r = feed(&mut cli, &mut uart, &mut sys, "boot a b c d e f g h i j k\r");
    assert!(matches!(r, Err(CliError::TooManyArguments)));
    assert!(uart.transmitted().contains("Error: Too many arguments.\n"));
    // No handler ran: the boot command never announced itself.
    assert!(!uart.transmitted().contains("Attempting to boot"));
}

#[test]
fn ten_arguments_still_dispatch() {
    let (mut cli, mut uart, mut sys) = fresh();
    let r = feed(&mut cli, &mut uart, &mut sys, "help a b c d e f g h i j\r");
    assert!(r.is_ok());
    assert!(uart.transmitted().contains("Error: Command 'a' not found.\n"));
}

#[test]
fn help_lists_every_command_in_table_order() {
    let (mut cli, mut uart, mut sys) = fresh();
    let r = feed(&mut cli, &mut uart, &mut sys, "help\r");
    assert!(r.is_ok());
    let expected = "help\r\nAvailable commands:\n  help: Show help.\n  status: Show system status.\n  storage: Interact with storage (read/write/info). Usage: storage info <emic|sd>\n  boot: Attempt to boot from a device.\n> ";
    assert_eq!(uart.transmitted().as_str(), expected);
}

#[test]
fn help_with_known_argument_prints_one_line() {
    let (mut cli, mut uart, mut sys) = fresh();
    let r = feed(&mut cli, &mut uart, &mut sys, "help boot\r");
    assert!(r.is_ok());
    assert_eq!(
        uart.transmitted().as_str(),
        "help boot\r\nboot: Attempt to boot from a device.\n> ",
    );
}

#[test]
fn help_with_unknown_argument_reports_not_found() {
    let (mut cli, mut uart, mut sys) = fresh();
    let r = feed(&mut cli, &mut uart, &mut sys, "help nope\r");
    assert!(r.is_ok());
    assert_eq!(
        uart.transmitted().as_str(),
        "help nope\r\nError: Command 'nope' not found.\n> ",
    );
}

#[test]
fn get_commands_matches_the_table() {
    let table = packetbox::cli::get_commands();
    let names: Vec<&str> = table.iter().map(|c| c.name).collect();
    assert_eq!(names, vec!["help", "status", "storage", "boot"]);
    assert_eq!(table[0].help, "Show help.");
    assert_eq!(table[3].help, "Attempt to boot from a device.");
}

#[test]
fn status_reports_every_section_in_order() {
    let mut cli = Cli::new();
    let mut uart = Uart0::new(0x1000_0000);
    let mut sys = sys_with(Some(60000), None);
    let mut psu = PsuMonitor::new();
    psu.init().unwrap();
    sys.psu = Some(psu);
    set_system_state(&mut sys.state_reg, SystemState::Running);
    let r = feed(&mut cli, &mut uart, &mut sys, "status\r");
    assert!(r.is_ok());
    let expected = "status\r\nPacketBox System Status:\n  Firmware: PacketBox v1.0 (BuildDate)\n  State: Running\n  Memory: 2097152 Bytes LPDDR1\n  Storage:\n    eMMC 1.0: Initialized (51200 blocks)\n    SD Card: Not Initialized (0 blocks)\n  PSU:\n    Monitor: Initialized\n  Refrigerator:\n    Controller: Not Initialized\n> ";
    assert_eq!(uart.transmitted().as_str(), expected);
}

#[test]
fn prompt_after_every_submitted_line() {
    let (mut cli, mut uart, mut sys) = fresh();
    feed(&mut cli, &mut uart, &mut sys, "help\r").unwrap();
    assert!(uart.transmitted().ends_with("> "));
    let _ = feed(&mut cli, &mut uart, &mut sys, "bogus\r");
    assert!(uart.transmitted().ends_with("> "));
}
