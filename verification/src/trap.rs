use vstd::prelude::*;
use crate::state::{set_system_state, SystemState, SystemStateRegistry};
use crate::uart::{dec_chars, hex_chars, Uart0};

verus! {

broadcast use crate::uart::lemma_app_assoc;

/// The diagnostic a language fault prints: the source location and message
/// where they are known, a placeholder where they are not.
pub open spec fn panic_report(
    location: Option<(Seq<char>, u32)>,
    message: Option<Seq<char>>,
) -> Seq<char> {
    "\n--- PANIC ---\n"@ + (match location {
        Some((file, line)) => "at "@ + file + ":"@ + dec_chars(line as nat) + "\n"@,
        None => "at unknown location\n"@,
    }) + (match message {
        Some(m) => "Message: "@ + m + "\n"@,
        None => "Message: <unknown>\n"@,
    }) + "--- PANIC ---\n"@
}

/// The diagnostic a CPU exception prints: the fault cause code and the
/// program counter.
pub open spec fn exception_report(mcause: u64, mepc: u64) -> Seq<char> {
    "\n--- EXCEPTION ---\n"@ + "Cause: "@ + dec_chars(mcause as nat) + "\n"@ + "PC: "@ + hex_chars(
        mepc as nat,
    ) + "\n"@ + "--- EXCEPTION ---\n"@
}

/// The last resort for a language fault: report a structured diagnostic and
/// make `Error` the recorded state, as the final action before the halt. The
/// halt itself — the loop that never returns — is the trap handler's.
pub fn report_panic(
    uart: &mut Uart0,
    reg: &mut SystemStateRegistry,
    location: Option<(&str, u32)>,
    message: Option<&str>,
)
    ensures
        final(uart).base() == old(uart).base(),
        final(uart)@ == old(uart)@ + panic_report(
            match location {
                Some((f, l)) => Some((f@, l)),
                None => None,
            },
            match message {
                Some(m) => Some(m@),
                None => None,
            },
        ),
        final(reg).current() == SystemState::Error,
{
    uart.write_str("\n--- PANIC ---\n");
    match location {
        Some((file, line)) => {
            uart.write_str("at ");
            uart.write_str(file);
            uart.write_str(":");
            uart.write_dec(line as u64);
            uart.write_str("\n");
        },
        None => {
            uart.write_str("at unknown location\n");
        },
    }
    match message {
        Some(m) => {
            uart.write_str("Message: ");
            uart.write_str(m);
            uart.write_str("\n");
        },
        None => {
            uart.write_str("Message: <unknown>\n");
        },
    }
    uart.write_str("--- PANIC ---\n");
    set_system_state(reg, SystemState::Error);
}

/// The last resort for a CPU exception: report the cause and the program
/// counter and make `Error` the recorded state, as the final action before
/// the halt.
pub fn report_exception(uart: &mut Uart0, reg: &mut SystemStateRegistry, mcause: u64, mepc: u64)
    ensures
        final(uart).base() == old(uart).base(),
        final(uart)@ == old(uart)@ + exception_report(mcause, mepc),
        final(reg).current() == SystemState::Error,
{
    uart.write_str("\n--- EXCEPTION ---\n");
    uart.write_str("Cause: ");
    uart.write_dec(mcause);
    uart.write_str("\n");
    uart.write_str("PC: ");
    uart.write_hex(mepc);
    uart.write_str("\n");
    uart.write_str("--- EXCEPTION ---\n");
    set_system_state(reg, SystemState::Error);
}

} // verus!
