use vstd::prelude::*;
use vstd::string::StrSliceExecFns;
use crate::context::{BootRequest, SystemContext};
use crate::memory::LPDDR1_SIZE_BYTES;
use crate::state::state_name;
use crate::storage::{storage_error_name, BlockDevice, StorageError, StorageRegistry, BLOCK_SIZE,
    EMIC_CAP_BLOCKS, SD_CAP_BLOCKS};
use crate::uart::{chars_of_bytes, dec_chars, hex_chars, Uart0};

verus! {

broadcast use crate::uart::lemma_app_assoc;

/// Capacity of the line-input buffer, in bytes.
pub const INPUT_BUFFER_SIZE: usize = 128;

/// Most arguments a command line may carry after the command name.
pub const MAX_ARGS: usize = 10;

/// Errors of the command shell.
#[derive(Debug, Clone, Copy, PartialEq, Eq, Structural)]
pub enum CliError {
    BufferFull,
    UnknownCommand,
    TooManyArguments,
    InvalidDataFormat,
    CommandFailed,
    UartWriteError,
    Storage(crate::storage::StorageError),
}

/// The one separator the line protocol knows: a space. No other whitespace
/// byte can reach the buffer, because every control byte is filtered out
/// before it is stored.
pub open spec fn is_space(b: u8) -> bool {
    b == 32
}

/// The bytes the line editor stores and echoes: printable ASCII.
pub open spec fn is_printable(b: u8) -> bool {
    32 <= b <= 126
}

/// The bytes of an ASCII string, each character as the byte with the same
/// code.
pub open spec fn ascii_bytes(s: Seq<char>) -> Seq<u8> {
    s.map_values(|c: char| c as u8)
}

/// One step of the left-to-right token scan: a space closes the token under
/// construction (if any); any other byte extends it.
pub open spec fn scan_step(acc: (Seq<Seq<u8>>, Seq<u8>), b: u8) -> (Seq<Seq<u8>>, Seq<u8>) {
    let (toks, cur) = acc;
    if is_space(b) {
        if cur.len() == 0 {
            (toks, cur)
        } else {
            (toks.push(cur), Seq::empty())
        }
    } else {
        (toks, cur.push(b))
    }
}

/// The token scan over a whole line: the closed tokens so far and the token
/// still under construction.
pub open spec fn scan(s: Seq<u8>) -> (Seq<Seq<u8>>, Seq<u8>)
    decreases s.len(),
{
    if s.len() == 0 {
        (Seq::empty(), Seq::empty())
    } else {
        scan_step(scan(s.drop_last()), s.last())
    }
}

/// The whitespace-separated tokens of a line: what trimming and splitting the
/// line yields, in order, with empty pieces dropped.
pub open spec fn tokens_of(s: Seq<u8>) -> Seq<Seq<u8>> {
    let (toks, cur) = scan(s);
    if cur.len() == 0 {
        toks
    } else {
        toks.push(cur)
    }
}

/// Split a line into its whitespace-separated tokens.
pub fn tokenize(line: &Vec<u8>) -> (toks: Vec<Vec<u8>>)
    ensures
        toks.deep_view() == tokens_of(line@),
{
    let mut toks: Vec<Vec<u8>> = Vec::new();
    let mut cur: Vec<u8> = Vec::new();
    let n = line.len();
    let mut i: usize = 0;
    while i < n
        invariant
            i <= n,
            n == line@.len(),
            (toks.deep_view(), cur@) == scan(line@.take(i as int)),
        decreases n - i,
    {
        let ghost pre = scan(line@.take(i as int));
        let b = line[i];
        proof {
            assert(line@.take(i as int + 1).drop_last() =~= line@.take(i as int));
            assert(line@.take(i as int + 1).last() == line@[i as int]);
            assert(scan(line@.take(i as int + 1)) == scan_step(pre, line@[i as int]));
        }
        if b == 32 {
            if cur.len() > 0 {
                let ghost closed = cur@;
                toks.push(cur);
                cur = Vec::new();
                proof {
                    assert(toks.deep_view() =~~= pre.0.push(closed));
                }
            }
        } else {
            cur.push(b);
        }
        i = i + 1;
    }
    proof {
        assert(line@.take(n as int) =~= line@);
    }
    if cur.len() > 0 {
        let ghost closed = cur@;
        let ghost below = toks.deep_view();
        toks.push(cur);
        proof {
            assert(toks.deep_view() =~~= below.push(closed));
        }
    }
    toks
}

/// Whether a token spells exactly the given ASCII string — the same bytes in
/// the same order, case included.
pub fn bytes_eq_str(t: &Vec<u8>, s: &str) -> (r: bool)
    requires
        s.is_ascii(),
    ensures
        r == (t@ == ascii_bytes(s@)),
{
    let n = s.unicode_len();
    if t.len() != n {
        proof {
            assert(ascii_bytes(s@).len() == s@.len());
        }
        return false;
    }
    let mut i: usize = 0;
    while i < n
        invariant
            i <= n,
            n == s@.len(),
            t@.len() == n,
            s.is_ascii(),
            forall|j: int| 0 <= j < i ==> t@[j] == ascii_bytes(s@)[j],
        decreases n - i,
    {
        let c = s.get_ascii(i);
        if t[i] != c {
            proof {
                assert(t@[i as int] != ascii_bytes(s@)[i as int]);
            }
            return false;
        }
        i = i + 1;
    }
    proof {
        assert(t@ =~= ascii_bytes(s@));
    }
    true
}

/// The tag of each built-in command: a closed set, fixed at compile time.
#[derive(Debug, Clone, Copy, PartialEq, Eq, Structural)]
pub enum CommandId {
    Help,
    Status,
    Storage,
    Boot,
}

/// One entry of the static command table.
pub struct Command {
    pub name: &'static str,
    pub help: &'static str,
    pub id: CommandId,
}

/// The registered commands — name and help text — in table order.
pub open spec fn spec_command_table() -> Seq<(Seq<char>, Seq<char>)> {
    seq![
        ("help"@, "Show help."@),
        ("status"@, "Show system status."@),
        ("storage"@, "Interact with storage (read/write/info). Usage: storage info <emic|sd>"@),
        ("boot"@, "Attempt to boot from a device."@),
    ]
}

/// The table position a name token selects: lookup is exact and
/// case-sensitive, so `Help` selects nothing while `help` does.
pub open spec fn spec_find_command(name: Seq<u8>) -> Option<int> {
    if name == ascii_bytes("help"@) {
        Some(0int)
    } else if name == ascii_bytes("status"@) {
        Some(1int)
    } else if name == ascii_bytes("storage"@) {
        Some(2int)
    } else if name == ascii_bytes("boot"@) {
        Some(3int)
    } else {
        None
    }
}

/// The command table.
pub fn get_commands() -> (r: Vec<Command>)
    ensures
        r@.len() == spec_command_table().len(),
        forall|i: int|
            #![trigger r@[i]]
            0 <= i < r@.len() ==> r@[i].name@ == spec_command_table()[i].0 && r@[i].help@
                == spec_command_table()[i].1,
        r@[0].id == CommandId::Help,
        r@[1].id == CommandId::Status,
        r@[2].id == CommandId::Storage,
        r@[3].id == CommandId::Boot,
{
    let mut v: Vec<Command> = Vec::new();
    v.push(Command { name: "help", help: "Show help.", id: CommandId::Help });
    v.push(Command { name: "status", help: "Show system status.", id: CommandId::Status });
    v.push(
        Command {
            name: "storage",
            help: "Interact with storage (read/write/info). Usage: storage info <emic|sd>",
            id: CommandId::Storage,
        },
    );
    v.push(Command { name: "boot", help: "Attempt to boot from a device.", id: CommandId::Boot });
    v
}

/// The status word a capability is reported under.
pub open spec fn init_status(present: bool) -> Seq<char> {
    if present {
        "Initialized"@
    } else {
        "Not Initialized"@
    }
}

/// The block count the status report shows for the primary-flash slot: the
/// recorded count, or 0 where the device is absent.
pub open spec fn emic_blocks_or_zero(reg: StorageRegistry) -> u64 {
    match reg.emic {
        Some(d) => match d.blocks() {
            Some(n) => n,
            None => 0,
        },
        None => 0,
    }
}

/// The block count the status report shows for the removable-card slot.
pub open spec fn sd_blocks_or_zero(reg: StorageRegistry) -> u64 {
    match reg.sd {
        Some(d) => match d.blocks() {
            Some(n) => n,
            None => 0,
        },
        None => 0,
    }
}

/// One help line, as `help` prints it for table entry `i`.
pub open spec fn help_line(i: int) -> Seq<char> {
    "  "@ + spec_command_table()[i].0 + ": "@ + spec_command_table()[i].1 + "\n"@
}

/// The first `n` help lines, in table order.
pub open spec fn help_lines_upto(n: int) -> Seq<char>
    decreases n,
{
    if n <= 0 {
        Seq::empty()
    } else {
        help_lines_upto(n - 1) + help_line(n - 1)
    }
}

/// What `help` with no argument prints: every registered command's name and
/// help text, one line each, in table order.
pub open spec fn help_all_output() -> Seq<char> {
    "Available commands:\n"@ + help_lines_upto(spec_command_table().len() as int)
}

/// What `help <name>` prints: the named command's line, or a not-found
/// report.
pub open spec fn help_one_output(arg: Seq<u8>) -> Seq<char> {
    match spec_find_command(arg) {
        Some(i) => spec_command_table()[i].0 + ": "@ + spec_command_table()[i].1 + "\n"@,
        None => "Error: Command '"@ + chars_of_bytes(arg) + "' not found.\n"@,
    }
}

/// The identity, state and memory lines of the status report.
pub open spec fn status_head(sys: SystemContext) -> Seq<char> {
    "PacketBox System Status:\n"@ + "  Firmware: PacketBox v1.0 (BuildDate)\n"@ + "  State: "@
        + state_name(sys.state_reg.current()) + "\n"@ + "  Memory: "@ + dec_chars(
        LPDDR1_SIZE_BYTES as nat,
    ) + " Bytes LPDDR1\n"@
}

/// The storage section of the status report: one line per device class.
pub open spec fn status_storage_section(reg: StorageRegistry) -> Seq<char> {
    "  Storage:\n"@ + "    eMMC 1.0: "@ + init_status(reg.emic is Some) + " ("@ + dec_chars(
        emic_blocks_or_zero(reg) as nat,
    ) + " blocks)\n"@ + "    SD Card: "@ + init_status(reg.sd is Some) + " ("@ + dec_chars(
        sd_blocks_or_zero(reg) as nat,
    ) + " blocks)\n"@
}

/// The power-monitor and refrigerator sections of the status report.
pub open spec fn status_aux_section(sys: SystemContext) -> Seq<char> {
    "  PSU:\n"@ + "    Monitor: "@ + init_status(sys.psu is Some) + "\n"@ + "  Refrigerator:\n"@
        + "    Controller: "@ + init_status(sys.fridge is Some) + "\n"@
}

/// What `status` prints, in fixed order: identity, state, memory, one line
/// per storage slot, the power monitor, the refrigerator interface.
pub open spec fn status_output(sys: SystemContext) -> Seq<char> {
    status_head(sys) + status_storage_section(sys.storage) + status_aux_section(sys)
}

/// What `storage` prints when the arguments are not `info <emic|sd>`.
pub open spec fn storage_usage_output() -> Seq<char> {
    "Usage: storage info <emic|sd>\n"@ + "Usage: storage <emic|sd> <read|write> <lba> [data_byte]\n"@
}

/// The capacity detail `storage info emic` prints for a present device.
pub open spec fn emic_detail(blocks: u64) -> Seq<char> {
    "  Total Blocks: "@ + dec_chars(blocks as nat) + "\n"@ + "  Capacity: "@ + dec_chars(
        (blocks as nat) * 512,
    ) + " Bytes (approx "@ + dec_chars((blocks as nat) * 512 / 1024 / 1024) + " MB)\n"@
}

/// The capacity detail `storage info sd` prints for a present device; the
/// note makes the legacy-partition-table cap explicit.
pub open spec fn sd_detail(blocks: u64) -> Seq<char> {
    "  Total Blocks: "@ + dec_chars(blocks as nat) + "\n"@ + "  Capacity: "@ + dec_chars(
        (blocks as nat) * 512,
    ) + " Bytes (approx "@ + dec_chars((blocks as nat) * 512 / 1024 / 1024) + " MB / "@ + dec_chars(
        (blocks as nat) * 512 / 1024 / 1024 / 1024,
    ) + " GB / "@ + dec_chars((blocks as nat) * 512 / 1024 / 1024 / 1024 / 1024)
        + " TB - capped by MBR at ~2.2TB)\n"@
}

/// What `storage` prints for a given argument list and system state.
pub open spec fn storage_info_output(args: Seq<Seq<u8>>, sys: SystemContext) -> Seq<char> {
    if args.len() < 2 || args[0] != ascii_bytes("info"@) {
        storage_usage_output()
    } else if args[1] == ascii_bytes("emic"@) {
        "eMMC 1.0 Info:\n"@ + "  Status: "@ + init_status(sys.storage.emic is Some) + "\n"@ + (
        match sys.storage.emic {
            Some(d) => emic_detail(emic_blocks_or_zero(sys.storage)),
            None => Seq::empty(),
        })
    } else if args[1] == ascii_bytes("sd"@) {
        "SD Card Info:\n"@ + "  Status: "@ + init_status(sys.storage.sd is Some) + "\n"@ + (
        match sys.storage.sd {
            Some(d) => sd_detail(sd_blocks_or_zero(sys.storage)),
            None => Seq::empty(),
        })
    } else {
        "Error: Unknown device type '"@ + chars_of_bytes(args[1]) + "'. Use 'emic' or 'sd'.\n"@
    }
}

/// List every command, or one command's line.
#[verifier::rlimit(60)]
pub fn help_command(uart: &mut Uart0, args: &Vec<Vec<u8>>) -> (r: Result<(), CliError>)
    ensures
        final(uart).base() == old(uart).base(),
        final(uart)@ == old(uart)@ + (if args@.len() == 0 {
            help_all_output()
        } else {
            help_one_output(args.deep_view()[0])
        }),
        r == Ok::<(), CliError>(()),
{
    let commands = get_commands();
    if args.len() == 0 {
        uart.write_str("Available commands:\n");
        let ghost base = uart@;
        let n = commands.len();
        let mut i: usize = 0;
        while i < n
            invariant
                i <= n,
                n == spec_command_table().len(),
                commands@.len() == n,
                forall|k: int|
                    #![trigger commands@[k]]
                    0 <= k < n ==> commands@[k].name@ == spec_command_table()[k].0
                        && commands@[k].help@ == spec_command_table()[k].1,
                uart@ == base + help_lines_upto(i as int),
                uart.base() == old(uart).base(),
                base == old(uart)@ + "Available commands:\n"@,
            decreases n - i,
        {
            uart.write_str("  ");
            uart.write_str(commands[i].name);
            uart.write_str(": ");
            uart.write_str(commands[i].help);
            uart.write_str("\n");
            proof {
                assert(uart@ == base + help_lines_upto(i as int + 1));
            }
            i = i + 1;
        }
        proof {
            assert(uart@ == old(uart)@ + help_all_output());
        }
        Ok(())
    } else {
        let arg = &args[0];
        proof {
            assert(forall|k: int|
                #![trigger args.deep_view()[k]]
                0 <= k < args@.len() ==> args.deep_view()[k] == args@[k]@);
            reveal_strlit("help");
            reveal_strlit("status");
            reveal_strlit("storage");
            reveal_strlit("boot");
        }
        if bytes_eq_str(arg, "help") {
            uart.write_str("help");
            uart.write_str(": ");
            uart.write_str("Show help.");
            uart.write_str("\n");
            proof {
                assert(uart@ == old(uart)@ + help_one_output(args.deep_view()[0]));
            }
        } else if bytes_eq_str(arg, "status") {
            uart.write_str("status");
            uart.write_str(": ");
            uart.write_str("Show system status.");
            uart.write_str("\n");
            proof {
                assert(uart@ == old(uart)@ + help_one_output(args.deep_view()[0]));
            }
        } else if bytes_eq_str(arg, "storage") {
            uart.write_str("storage");
            uart.write_str(": ");
            uart.write_str("Interact with storage (read/write/info). Usage: storage info <emic|sd>");
            uart.write_str("\n");
            proof {
                assert(uart@ == old(uart)@ + help_one_output(args.deep_view()[0]));
            }
        } else if bytes_eq_str(arg, "boot") {
            uart.write_str("boot");
            uart.write_str(": ");
            uart.write_str("Attempt to boot from a device.");
            uart.write_str("\n");
            proof {
                assert(uart@ == old(uart)@ + help_one_output(args.deep_view()[0]));
            }
        } else {
            uart.write_str("Error: Command '");
            uart.write_bytes(arg);
            uart.write_str("' not found.\n");
            proof {
                assert(uart@ == old(uart)@ + help_one_output(args.deep_view()[0]));
            }
        }
        Ok(())
    }
}

fn write_status_head(uart: &mut Uart0, sys: &SystemContext)
    ensures
        final(uart).base() == old(uart).base(),
        final(uart)@ == old(uart)@ + status_head(*sys),
{
    uart.write_str("PacketBox System Status:\n");
    uart.write_str("  Firmware: PacketBox v1.0 (BuildDate)\n");
    uart.write_str("  State: ");
    uart.write_str(crate::state::get_system_state(&sys.state_reg).name());
    uart.write_str("\n");
    uart.write_str("  Memory: ");
    uart.write_dec(LPDDR1_SIZE_BYTES as u64);
    uart.write_str(" Bytes LPDDR1\n");
    proof {
        assert(uart@ == old(uart)@ + status_head(*sys));
    }
}

fn write_status_storage(uart: &mut Uart0, reg: &StorageRegistry)
    ensures
        final(uart).base() == old(uart).base(),
        final(uart)@ == old(uart)@ + status_storage_section(*reg),
{
    uart.write_str("  Storage:\n");
    uart.write_str("    eMMC 1.0: ");
    uart.write_str(if reg.emic.is_some() {
        "Initialized"
    } else {
        "Not Initialized"
    });
    uart.write_str(" (");
    let emic_blocks: u64 = match &reg.emic {
        Some(d) => d.block_count().unwrap_or(0),
        None => 0,
    };
    uart.write_dec(emic_blocks);
    uart.write_str(" blocks)\n");
    uart.write_str("    SD Card: ");
    uart.write_str(if reg.sd.is_some() {
        "Initialized"
    } else {
        "Not Initialized"
    });
    uart.write_str(" (");
    let sd_blocks: u64 = match &reg.sd {
        Some(d) => d.block_count().unwrap_or(0),
        None => 0,
    };
    uart.write_dec(sd_blocks);
    uart.write_str(" blocks)\n");
    proof {
        assert(uart@ == old(uart)@ + status_storage_section(*reg));
    }
}

fn write_status_aux(uart: &mut Uart0, sys: &SystemContext)
    ensures
        final(uart).base() == old(uart).base(),
        final(uart)@ == old(uart)@ + status_aux_section(*sys),
{
    uart.write_str("  PSU:\n");
    uart.write_str("    Monitor: ");
    uart.write_str(if sys.psu.is_some() {
        "Initialized"
    } else {
        "Not Initialized"
    });
    uart.write_str("\n");
    uart.write_str("  Refrigerator:\n");
    uart.write_str("    Controller: ");
    uart.write_str(if sys.fridge.is_some() {
        "Initialized"
    } else {
        "Not Initialized"
    });
    uart.write_str("\n");
    proof {
        assert(uart@ == old(uart)@ + status_aux_section(*sys));
    }
}

/// Report the firmware identity, the system state, and every capability.
pub fn status_command(uart: &mut Uart0, sys: &SystemContext) -> (r: Result<(), CliError>)
    ensures
        final(uart).base() == old(uart).base(),
        final(uart)@ == old(uart)@ + status_output(*sys),
        r == Ok::<(), CliError>(()),
{
    write_status_head(uart, sys);
    write_status_storage(uart, &sys.storage);
    write_status_aux(uart, sys);
    Ok(())
}

/// Report one storage device's status and capacity, or the usage lines.
#[verifier::rlimit(60)]
pub fn storage_command(uart: &mut Uart0, args: &Vec<Vec<u8>>, sys: &SystemContext) -> (r: Result<
    (),
    CliError,
>)
    requires
        sys.wf(),
    ensures
        final(uart).base() == old(uart).base(),
        final(uart)@ == old(uart)@ + storage_info_output(args.deep_view(), *sys),
        r == Ok::<(), CliError>(()),
{
    proof {
        assert(forall|k: int|
            #![trigger args.deep_view()[k]]
            0 <= k < args@.len() ==> args.deep_view()[k] == args@[k]@);
        reveal_strlit("info");
        reveal_strlit("emic");
        reveal_strlit("sd");
    }
    if args.len() < 2 || !bytes_eq_str(&args[0], "info") {
        uart.write_str("Usage: storage info <emic|sd>\n");
        uart.write_str("Usage: storage <emic|sd> <read|write> <lba> [data_byte]\n");
        proof {
            assert(uart@ == old(uart)@ + storage_info_output(args.deep_view(), *sys));
        }
        return Ok(());
    }
    let device_type = &args[1];
    if bytes_eq_str(device_type, "emic") {
        uart.write_str("eMMC 1.0 Info:\n");
        uart.write_str("  Status: ");
        match &sys.storage.emic {
            Some(d) => {
                uart.write_str("Initialized");
                uart.write_str("\n");
                let blocks = d.block_count().unwrap_or(0);
                proof {
                    assert(d.wf());
                    assert(blocks <= EMIC_CAP_BLOCKS);
                }
                let bytes = blocks * 512u64;
                uart.write_str("  Total Blocks: ");
                uart.write_dec(blocks);
                uart.write_str("\n");
                uart.write_str("  Capacity: ");
                uart.write_dec(bytes);
                uart.write_str(" Bytes (approx ");
                uart.write_dec(bytes / 1024 / 1024);
                uart.write_str(" MB)\n");
            },
            None => {
                uart.write_str("Not Initialized");
                uart.write_str("\n");
            },
        }
        proof {
            assert(uart@ == old(uart)@ + storage_info_output(args.deep_view(), *sys));
        }
    } else if bytes_eq_str(device_type, "sd") {
        uart.write_str("SD Card Info:\n");
        uart.write_str("  Status: ");
        match &sys.storage.sd {
            Some(d) => {
                uart.write_str("Initialized");
                uart.write_str("\n");
                let blocks = d.block_count().unwrap_or(0);
                proof {
                    assert(d.wf());
                    assert(blocks <= SD_CAP_BLOCKS);
                }
                let bytes = blocks * 512u64;
                uart.write_str("  Total Blocks: ");
                uart.write_dec(blocks);
                uart.write_str("\n");
                uart.write_str("  Capacity: ");
                uart.write_dec(bytes);
                uart.write_str(" Bytes (approx ");
                uart.write_dec(bytes / 1024 / 1024);
                uart.write_str(" MB / ");
                uart.write_dec(bytes / 1024 / 1024 / 1024);
                uart.write_str(" GB / ");
                uart.write_dec(bytes / 1024 / 1024 / 1024 / 1024);
                uart.write_str(" TB - capped by MBR at ~2.2TB)\n");
            },
            None => {
                uart.write_str("Not Initialized");
                uart.write_str("\n");
            },
        }
        proof {
            assert(uart@ == old(uart)@ + storage_info_output(args.deep_view(), *sys));
        }
    } else {
        uart.write_str("Error: Unknown device type '");
        uart.write_bytes(device_type);
        uart.write_str("'. Use 'emic' or 'sd'.\n");
        proof {
            assert(uart@ == old(uart)@ + storage_info_output(args.deep_view(), *sys));
        }
    }
    Ok(())
}


/// First block of the fixed bootloader run on the removable card. A
/// placeholder convention, not a real partition-table walk: configuration to
/// be supplied per deployment.
pub const BOOTLOADER_LBA: u64 = 100;

/// Length of the fixed bootloader run, in blocks.
pub const BOOTLOADER_SIZE_BLOCKS: usize = 16;

/// Load address the staged bootloader image is destined for.
pub const BOOTLOADER_DEST_ADDRESS: usize = 0x9000_0000;

/// The first `n` argument tokens as `boot` echoes them back: quoted, comma
/// separated.
pub open spec fn debug_args_upto(args: Seq<Seq<u8>>, n: int) -> Seq<char>
    decreases n,
{
    if n <= 0 {
        Seq::empty()
    } else if n == 1 {
        "\""@ + chars_of_bytes(args[0]) + "\""@
    } else {
        debug_args_upto(args, n - 1) + ", "@ + "\""@ + chars_of_bytes(args[n - 1]) + "\""@
    }
}

/// A whole argument list as `boot` echoes it back.
pub open spec fn debug_args(args: Seq<Seq<u8>>) -> Seq<char> {
    "["@ + debug_args_upto(args, args.len() as int) + "]"@
}

/// Whether the removable card is present and can serve the boot record and
/// the whole fixed bootloader run.
pub open spec fn sd_can_boot(reg: StorageRegistry) -> bool {
    match reg.sd {
        Some(d) => d.blocks() is Some && d.blocks()->Some_0 >= BOOTLOADER_LBA
            + BOOTLOADER_SIZE_BLOCKS as u64,
        None => false,
    }
}

/// The bootloader block at which reading first runs off the device's end.
pub open spec fn first_failing_block(n: u64) -> u64 {
    if n <= BOOTLOADER_LBA {
        0
    } else {
        (n - BOOTLOADER_LBA) as u64
    }
}

/// What `boot` prints for a given argument list and system state.
pub open spec fn boot_output(args: Seq<Seq<u8>>, sys: SystemContext) -> Seq<char> {
    let pre = "Attempting to boot...\n"@ + (if args.len() == 0 {
        Seq::<char>::empty()
    } else {
        "Ignoring arguments: "@ + debug_args(args) + "\n"@
    });
    match sys.storage.sd {
        None => pre + "SD card not available for boot.\n"@
            + "Boot process finished or failed.\n"@,
        Some(d) => {
            let n = sd_blocks_or_zero(sys.storage);
            let checking = pre + "Checking SD card for bootloader...\n"@;
            if n == 0 {
                checking + "Failed to read MBR from SD card: "@ + storage_error_name(
                    StorageError::InvalidLba,
                ) + "\n"@
            } else {
                let loading = checking + "MBR read OK. Parsing MBR...\n"@
                    + "Loading bootloader from LBA "@ + dec_chars(BOOTLOADER_LBA as nat)
                    + "...\n"@;
                if n < BOOTLOADER_LBA + BOOTLOADER_SIZE_BLOCKS as u64 {
                    loading + "Failed to read bootloader block "@ + dec_chars(
                        first_failing_block(n) as nat,
                    ) + ": "@ + storage_error_name(StorageError::InvalidLba) + "\n"@
                } else {
                    loading + "Bootloader loaded to "@ + hex_chars(BOOTLOADER_DEST_ADDRESS as nat)
                        + ".\n"@
                }
            }
        },
    }
}

/// How `boot` ends: failure exactly where a needed block cannot be read; an
/// absent card is reported, not an error.
pub open spec fn boot_result(sys: SystemContext) -> Result<(), CliError> {
    match sys.storage.sd {
        None => Ok(()),
        Some(d) => if sd_can_boot(sys.storage) {
            Ok(())
        } else {
            Err(CliError::CommandFailed)
        },
    }
}

/// Whether `boot` stages a bootstrap image for the control transfer.
pub open spec fn boot_stages_request(sys: SystemContext) -> bool {
    sys.storage.sd is Some && sd_can_boot(sys.storage)
}

/// A zero-filled buffer of the given length.
fn zero_vec(n: usize) -> (v: Vec<u8>)
    ensures
        v@.len() == n,
{
    let mut v: Vec<u8> = Vec::new();
    let mut i: usize = 0;
    while i < n
        invariant
            i <= n,
            v@.len() == i,
        decreases n - i,
    {
        v.push(0);
        i = i + 1;
    }
    v
}

fn write_debug_args(uart: &mut Uart0, args: &Vec<Vec<u8>>)
    ensures
        final(uart).base() == old(uart).base(),
        final(uart)@ == old(uart)@ + debug_args(args.deep_view()),
{
    uart.write_str("[");
    let ghost base = uart@;
    let n = args.len();
    let mut i: usize = 0;
    while i < n
        invariant
            i <= n,
            n == args@.len(),
            args.deep_view().len() == n,
            forall|k: int|
                #![trigger args.deep_view()[k]]
                0 <= k < n ==> args.deep_view()[k] == args@[k]@,
            uart@ == base + debug_args_upto(args.deep_view(), i as int),
            uart.base() == old(uart).base(),
            base == old(uart)@ + "["@,
        decreases n - i,
    {
        if i > 0 {
            uart.write_str(", ");
        }
        uart.write_str("\"");
        uart.write_bytes(&args[i]);
        uart.write_str("\"");
        proof {
            assert(uart@ == base + debug_args_upto(args.deep_view(), i as int + 1));
        }
        i = i + 1;
    }
    uart.write_str("]");
    proof {
        assert(uart@ == old(uart)@ + debug_args(args.deep_view()));
    }
}

/// Attempt to boot from the removable card: read the boot record, then the
/// fixed bootloader run, and stage the image for the control transfer. The
/// transfer itself — copying the image to its load address and jumping —
/// does not return, and is the board layer's to perform.
#[verifier::rlimit(60)]
pub fn boot_command(uart: &mut Uart0, args: &Vec<Vec<u8>>, sys: &mut SystemContext) -> (r: Result<
    (),
    CliError,
>)
    requires
        old(sys).wf(),
    ensures
        final(sys).wf(),
        final(uart).base() == old(uart).base(),
        final(uart)@ == old(uart)@ + boot_output(args.deep_view(), *old(sys)),
        r == boot_result(*old(sys)),
        final(sys).state_reg == old(sys).state_reg,
        final(sys).storage == old(sys).storage,
        final(sys).psu == old(sys).psu,
        final(sys).fridge == old(sys).fridge,
        boot_stages_request(*old(sys)) ==> final(sys).boot_request is Some
            && final(sys).boot_request->Some_0.dest_address == BOOTLOADER_DEST_ADDRESS
            && final(sys).boot_request->Some_0.payload@.len() == BOOTLOADER_SIZE_BLOCKS
            * BLOCK_SIZE,
        !boot_stages_request(*old(sys)) ==> final(sys).boot_request == old(sys).boot_request,
{
    uart.write_str("Attempting to boot...\n");
    if args.len() > 0 {
        uart.write_str("Ignoring arguments: ");
        write_debug_args(uart, args);
        uart.write_str("\n");
    }
    let ghost out_pre = uart@;
    match &mut sys.storage.sd {
        None => {
            uart.write_str("SD card not available for boot.\n");
            uart.write_str("Boot process finished or failed.\n");
            proof {
                assert(uart@ == old(uart)@ + boot_output(args.deep_view(), *old(sys)));
            }
            Ok(())
        },
        Some(sd) => {
            uart.write_str("Checking SD card for bootloader...\n");
            let mut mbr_buffer = zero_vec(BLOCK_SIZE);
            match sd.read_block(0, &mut mbr_buffer) {
                Err(e) => {
                    uart.write_str("Failed to read MBR from SD card: ");
                    uart.write_str(e.name());
                    uart.write_str("\n");
                    proof {
                        assert(uart@ == old(uart)@ + boot_output(args.deep_view(), *old(sys)));
                    }
                    Err(CliError::CommandFailed)
                },
                Ok(_) => {
                    uart.write_str("MBR read OK. Parsing MBR...\n");
                    uart.write_str("Loading bootloader from LBA ");
                    uart.write_dec(BOOTLOADER_LBA);
                    uart.write_str("...\n");
                    let ghost out_loading = uart@;
                    let ghost sd0 = *sd;
                    let mut payload: Vec<u8> = Vec::new();
                    let mut failed: Option<StorageError> = None;
                    let mut i: usize = 0;
                    while i < BOOTLOADER_SIZE_BLOCKS && failed.is_none()
                        invariant
                            i <= BOOTLOADER_SIZE_BLOCKS,
                            *sd == sd0,
                            sd0.wf(),
                            sd0.blocks() is Some,
                            sd0.blocks()->Some_0 >= 1,
                            failed is None ==> payload@.len() == 512 * i,
                            failed is None && i > 0 ==> sd0.blocks()->Some_0 >= BOOTLOADER_LBA
                                + i as u64,
                            failed is Some ==> failed == Some(StorageError::InvalidLba)
                                && i as u64 == first_failing_block(sd0.blocks()->Some_0)
                                && sd0.blocks()->Some_0 < BOOTLOADER_LBA
                                + BOOTLOADER_SIZE_BLOCKS as u64,
                            uart@ == out_loading,
                            uart.base() == old(uart).base(),
                        decreases BOOTLOADER_SIZE_BLOCKS - i + (if failed is None {
                            1int
                        } else {
                            0int
                        }),
                    {
                        let mut block_buffer = zero_vec(BLOCK_SIZE);
                        match sd.read_block(BOOTLOADER_LBA + i as u64, &mut block_buffer) {
                            Ok(_) => {
                                payload.append(&mut block_buffer);
                                i = i + 1;
                            },
                            Err(e) => {
                                failed = Some(e);
                            },
                        }
                    }
                    if let Some(e) = failed {
                        uart.write_str("Failed to read bootloader block ");
                        uart.write_dec(i as u64);
                        uart.write_str(": ");
                        uart.write_str(e.name());
                        uart.write_str("\n");
                        proof {
                            assert(uart@ == old(uart)@ + boot_output(
                                args.deep_view(),
                                *old(sys),
                            ));
                        }
                        return Err(CliError::CommandFailed);
                    }
                    uart.write_str("Bootloader loaded to ");
                    uart.write_hex(BOOTLOADER_DEST_ADDRESS as u64);
                    uart.write_str(".\n");
                    proof {
                        assert(uart@ == old(uart)@ + boot_output(args.deep_view(), *old(sys)));
                    }
                    sys.boot_request = Some(
                        BootRequest { dest_address: BOOTLOADER_DEST_ADDRESS, payload },
                    );
                    Ok(())
                },
            }
        },
    }
}


/// The shell prompt.
pub open spec fn prompt() -> Seq<char> {
    "> "@
}

/// Backspace and delete both rub out the last buffered byte.
pub open spec fn is_backspace(b: u8) -> bool {
    b == 8 || b == 127
}

pub open spec fn is_cr(b: u8) -> bool {
    b == 13
}

pub open spec fn is_lf(b: u8) -> bool {
    b == 10
}

/// Control bytes with no editing meaning: ignored without echo.
pub open spec fn is_other_control(b: u8) -> bool {
    b < 32 && !(b == 8 || b == 13 || b == 10)
}

/// What executing one submitted line prints: nothing for a blank line, the
/// too-many-arguments report, the unknown-command report, or the selected
/// command's output.
pub open spec fn line_output(toks: Seq<Seq<u8>>, sys: SystemContext) -> Seq<char> {
    if toks.len() == 0 {
        Seq::empty()
    } else if toks.len() - 1 > MAX_ARGS {
        "Error: Too many arguments.\n"@
    } else {
        let cmd = toks[0];
        let args = toks.skip(1);
        match spec_find_command(cmd) {
            None => "Error: Unknown command '"@ + chars_of_bytes(cmd) + "'. Type 'help'.\n"@,
            Some(i) => if i == 0 {
                if args.len() == 0 {
                    help_all_output()
                } else {
                    help_one_output(args[0])
                }
            } else if i == 1 {
                status_output(sys)
            } else if i == 2 {
                storage_info_output(args, sys)
            } else {
                boot_output(args, sys)
            },
        }
    }
}

/// How executing one submitted line ends. A handler that runs never fails
/// except `boot`, which fails exactly where a needed block cannot be read.
pub open spec fn line_result(toks: Seq<Seq<u8>>, sys: SystemContext) -> Result<(), CliError> {
    if toks.len() == 0 {
        Ok(())
    } else if toks.len() - 1 > MAX_ARGS {
        Err(CliError::TooManyArguments)
    } else {
        match spec_find_command(toks[0]) {
            None => Err(CliError::UnknownCommand),
            Some(i) => if i == 3 {
                boot_result(sys)
            } else {
                Ok(())
            },
        }
    }
}

/// Whether executing one submitted line stages a bootstrap image.
pub open spec fn line_stages_boot(toks: Seq<Seq<u8>>, sys: SystemContext) -> bool {
    &&& toks.len() > 0
    &&& toks.len() - 1 <= MAX_ARGS
    &&& spec_find_command(toks[0]) == Some(3int)
    &&& boot_stages_request(sys)
}

/// The interactive command shell: a fixed-capacity line buffer, fed one byte
/// at a time. Its view is the buffered line.
pub struct Cli {
    buffer: Vec<u8>,
}

impl View for Cli {
    type V = Seq<u8>;

    closed spec fn view(&self) -> Seq<u8> {
        self.buffer@
    }
}

impl Cli {
    /// The buffer never outgrows its capacity and holds only bytes that were
    /// echoed as input: printable ASCII.
    pub open spec fn wf(&self) -> bool {
        &&& self@.len() <= INPUT_BUFFER_SIZE
        &&& forall|i: int| 0 <= i < self@.len() ==> is_printable(#[trigger] self@[i])
    }

    pub fn new() -> (c: Cli)
        ensures
            c.wf(),
            c@ == Seq::<u8>::empty(),
    {
        Cli { buffer: Vec::new() }
    }

    /// Reset the line buffer.
    pub fn init(&mut self)
        ensures
            final(self).wf(),
            final(self)@ == Seq::<u8>::empty(),
    {
        self.buffer.clear();
    }

    /// Print the prompt.
    pub fn print_prompt(&self, uart: &mut Uart0) -> (r: Result<(), CliError>)
        ensures
            final(uart).base() == old(uart).base(),
            final(uart)@ == old(uart)@ + prompt(),
            r == Ok::<(), CliError>(()),
    {
        uart.write_str("> ");
        Ok(())
    }

    /// Parse the buffered line and run the command it selects.
    ///
    /// A blank or whitespace-only line is a successful no-op. Otherwise the
    /// first token names the command and the rest are its arguments; more
    /// than `MAX_ARGS` of those abort the line before any lookup, and lookup
    /// itself is exact and case-sensitive. The buffer is left untouched; the
    /// caller decides when to reset it.
    #[verifier::rlimit(100)]
    pub fn parse_and_execute(&mut self, uart: &mut Uart0, sys: &mut SystemContext) -> (r: Result<
        (),
        CliError,
    >)
        requires
            old(sys).wf(),
        ensures
            *final(self) == *old(self),
            final(sys).wf(),
            final(uart).base() == old(uart).base(),
            final(uart)@ == old(uart)@ + line_output(tokens_of(old(self)@), *old(sys)),
            r == line_result(tokens_of(old(self)@), *old(sys)),
            final(sys).state_reg == old(sys).state_reg,
            final(sys).storage == old(sys).storage,
            final(sys).psu == old(sys).psu,
            final(sys).fridge == old(sys).fridge,
            line_stages_boot(tokens_of(old(self)@), *old(sys)) ==> final(sys).boot_request is Some
                && final(sys).boot_request->Some_0.dest_address == BOOTLOADER_DEST_ADDRESS
                && final(sys).boot_request->Some_0.payload@.len() == BOOTLOADER_SIZE_BLOCKS
                * BLOCK_SIZE,
            !line_stages_boot(tokens_of(old(self)@), *old(sys)) ==> final(sys).boot_request
                == old(sys).boot_request,
    {
        let mut toks = tokenize(&self.buffer);
        let ghost toks0 = toks.deep_view();
        if toks.len() == 0 {
            return Ok(());
        }
        if toks.len() - 1 > MAX_ARGS {
            uart.write_str("Error: Too many arguments.\n");
            return Err(CliError::TooManyArguments);
        }
        let cmd = toks.remove(0);
        let args = toks;
        proof {
            assert(forall|k: int|
                #![trigger args.deep_view()[k]]
                0 <= k < args@.len() ==> args.deep_view()[k] == args@[k]@);
            assert(forall|k: int| #![trigger toks0[k]] 0 <= k < toks0.len() ==> toks0[k] == tokens_of(old(self)@)[k]);
            assert(cmd@ == toks0[0]);
            assert(args.deep_view() =~~= toks0.skip(1));
        }
        proof {
            reveal_strlit("help");
            reveal_strlit("status");
            reveal_strlit("storage");
            reveal_strlit("boot");
        }
        if bytes_eq_str(&cmd, "help") {
            help_command(uart, &args)
        } else if bytes_eq_str(&cmd, "status") {
            status_command(uart, sys)
        } else if bytes_eq_str(&cmd, "storage") {
            storage_command(uart, &args, sys)
        } else if bytes_eq_str(&cmd, "boot") {
            boot_command(uart, &args, sys)
        } else {
            uart.write_str("Error: Unknown command '");
            uart.write_bytes(&cmd);
            uart.write_str("'. Type 'help'.\n");
            Err(CliError::UnknownCommand)
        }
    }
}


impl Cli {
    /// Consume one input byte.
    ///
    /// Backspace and delete rub out the last byte and erase it on the
    /// terminal; carriage return (and, on a non-empty line, line feed)
    /// submits the line, which is executed, reported and cleared before the
    /// next prompt; other control bytes are ignored silently; a printable
    /// byte is stored and echoed, or answered with a bell and `BufferFull`
    /// when the line is at capacity; a byte beyond ASCII is rejected as
    /// `InvalidDataFormat` and changes nothing.
    #[verifier::rlimit(60)]
    pub fn process_byte(&mut self, byte: u8, uart: &mut Uart0, sys: &mut SystemContext) -> (r:
        Result<(), CliError>)
        requires
            old(self).wf(),
            old(sys).wf(),
        ensures
            final(self).wf(),
            final(sys).wf(),
            final(uart).base() == old(uart).base(),
            final(sys).state_reg == old(sys).state_reg,
            final(sys).storage == old(sys).storage,
            final(sys).psu == old(sys).psu,
            final(sys).fridge == old(sys).fridge,
            is_backspace(byte) && old(self)@.len() > 0 ==> final(self)@ == old(self)@.drop_last()
                && final(uart)@ == old(uart)@ + "\x08 \x08"@ && r == Ok::<(), CliError>(()),
            is_backspace(byte) && old(self)@.len() == 0 ==> final(self)@ == old(self)@
                && final(uart)@ == old(uart)@ && r == Ok::<(), CliError>(()),
            is_cr(byte) || (is_lf(byte) && old(self)@.len() > 0) ==> final(self)@
                == Seq::<u8>::empty() && final(uart)@ == old(uart)@ + "\r\n"@ + line_output(
                tokens_of(old(self)@),
                *old(sys),
            ) + prompt() && r == line_result(tokens_of(old(self)@), *old(sys)),
            is_lf(byte) && old(self)@.len() == 0 ==> final(self)@ == old(self)@ && final(uart)@
                == old(uart)@ + prompt() && r == Ok::<(), CliError>(()),
            is_other_control(byte) ==> final(self)@ == old(self)@ && final(uart)@ == old(uart)@
                && r == Ok::<(), CliError>(()),
            is_printable(byte) && old(self)@.len() < INPUT_BUFFER_SIZE ==> final(self)@
                == old(self)@.push(byte) && final(uart)@ == old(uart)@ + seq![byte as char]
                && r == Ok::<(), CliError>(()),
            is_printable(byte) && old(self)@.len() == INPUT_BUFFER_SIZE ==> final(self)@
                == old(self)@ && final(uart)@ == old(uart)@ + "\x07"@ && r == Err::<(), CliError>(
                CliError::BufferFull,
            ),
            byte >= 128 ==> final(self)@ == old(self)@ && final(uart)@ == old(uart)@ && r == Err::<
                (),
                CliError,
            >(CliError::InvalidDataFormat),
            (is_cr(byte) || (is_lf(byte) && old(self)@.len() > 0)) && line_stages_boot(
                tokens_of(old(self)@),
                *old(sys),
            ) ==> final(sys).boot_request is Some && final(sys).boot_request->Some_0.dest_address
                == BOOTLOADER_DEST_ADDRESS && final(sys).boot_request->Some_0.payload@.len()
                == BOOTLOADER_SIZE_BLOCKS * BLOCK_SIZE,
            !((is_cr(byte) || (is_lf(byte) && old(self)@.len() > 0)) && line_stages_boot(
                tokens_of(old(self)@),
                *old(sys),
            )) ==> final(sys).boot_request == old(sys).boot_request,
    {
        if byte == 0x08 || byte == 0x7f {
            if self.buffer.len() > 0 {
                let _ = self.buffer.pop();
                uart.write_str("\x08 \x08");
            }
            Ok(())
        } else if byte == 0x0d {
            uart.write_str("\r\n");
            let r = self.parse_and_execute(uart, sys);
            self.buffer.clear();
            uart.write_str("> ");
            r
        } else if byte == 0x0a {
            if self.buffer.len() > 0 && self.buffer[self.buffer.len() - 1] != 0x0d {
                uart.write_str("\r\n");
                let r = self.parse_and_execute(uart, sys);
                self.buffer.clear();
                uart.write_str("> ");
                r
            } else {
                if self.buffer.len() == 0 {
                    uart.write_str("> ");
                }
                Ok(())
            }
        } else if byte < 0x20 {
            Ok(())
        } else if byte < 0x80 {
            if self.buffer.len() < INPUT_BUFFER_SIZE {
                self.buffer.push(byte);
                uart.putc(byte);
                Ok(())
            } else {
                uart.write_str("\x07");
                Err(CliError::BufferFull)
            }
        } else {
            Err(CliError::InvalidDataFormat)
        }
    }

    /// Feeding a run of printable bytes into a line with room for them echoes
    /// every byte exactly once, in order, and appends exactly those bytes to
    /// the line buffer.
    pub fn process_bytes(&mut self, bytes: &Vec<u8>, uart: &mut Uart0, sys: &mut SystemContext)
        -> (r: Result<(), CliError>)
        requires
            old(self).wf(),
            old(sys).wf(),
            forall|i: int| 0 <= i < bytes@.len() ==> is_printable(#[trigger] bytes@[i]),
            old(self)@.len() + bytes@.len() <= INPUT_BUFFER_SIZE,
        ensures
            final(self).wf(),
            final(sys).wf(),
            final(self)@ == old(self)@ + bytes@,
            final(uart)@ == old(uart)@ + chars_of_bytes(bytes@),
            final(uart).base() == old(uart).base(),
            *final(sys) == *old(sys),
            r == Ok::<(), CliError>(()),
    {
        let n = bytes.len();
        let mut i: usize = 0;
        while i < n
            invariant
                i <= n,
                n == bytes@.len(),
                forall|k: int| 0 <= k < n ==> is_printable(#[trigger] bytes@[k]),
                old(self)@.len() + n <= INPUT_BUFFER_SIZE,
                self.wf(),
                sys.wf(),
                self@ == old(self)@ + bytes@.take(i as int),
                uart@ == old(uart)@ + chars_of_bytes(bytes@.take(i as int)),
                uart.base() == old(uart).base(),
                *sys == *old(sys),
            decreases n - i,
        {
            let b = bytes[i];
            let _ = self.process_byte(b, uart, sys);
            proof {
                assert(bytes@.take(i as int + 1) =~= bytes@.take(i as int).push(b));
                assert(old(self)@ + bytes@.take(i as int + 1) =~= (old(self)@ + bytes@.take(
                    i as int,
                )).push(b));
                assert(chars_of_bytes(bytes@.take(i as int + 1)) =~= chars_of_bytes(
                    bytes@.take(i as int),
                ).push(b as char));
                assert(old(uart)@ + chars_of_bytes(bytes@.take(i as int + 1)) =~= (old(uart)@
                    + chars_of_bytes(bytes@.take(i as int))).push(b as char));
            }
            i = i + 1;
        }
        proof {
            assert(bytes@.take(n as int) =~= bytes@);
        }
        Ok(())
    }
}

} // verus!
