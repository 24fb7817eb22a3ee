//! Firmware core for the PacketBox controller board.
//!
//! Three subsystems carry the logic: the boot orchestrator, which runs the
//! fixed stage list and classifies each outcome as fatal or non-fatal; the
//! block-storage abstraction, which validates every request and enforces a
//! per-class capacity policy; and the interactive command shell, which edits
//! a line one byte at a time and dispatches it over a static command table.
//! Every function here states its behaviour in a contract, down to the exact
//! bytes echoed and reported on the console.
//!
//! The hardware itself — register programming, bus traffic, the transmit and
//! receive ends of the UART, the final jump into a loaded bootloader — sits
//! in the board layer around this crate. The library hands it plain values:
//! probe results come in, queued console output and staged boot images go
//! out.

pub mod boot;
pub mod cli;
pub mod context;
pub mod memory;
pub mod psu;
pub mod refrigerator;
pub mod state;
pub mod storage;
pub mod trap;
pub mod uart;
