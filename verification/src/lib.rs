//! A verified core for a process-memory currency scanner.
//!
//! The library attaches to a running game process, walks chains of raw
//! memory offsets inside that process's address space to locate numeric
//! currency fields, and surfaces their values together with attach/detach
//! lifecycle events.  The pieces are:
//!
//! - [`memory_scanner`]: the primitive memory reader, with its byte-order
//!   policy (raw little-endian buffers are reversed once, here, so that
//!   everything downstream decodes big-endian);
//! - [`resolver`]: the pointer-chain resolver, both over a live process and
//!   over an in-memory image, proved against a mathematical model of the
//!   walk;
//! - [`watcher`]: the attach/detach state machine driven by a background
//!   watcher loop;
//! - [`process_locator`]: the exact-name match that picks the target
//!   process out of the enumerated process table;
//! - [`game_scanner`]: the scanner facade and its result, event and error
//!   types;
//! - [`file_manager`]: the ordered log of completed scan results handed to
//!   the persistence collaborator.

pub mod file_manager;
pub mod game_scanner;
pub mod memory_scanner;
pub mod process_locator;
pub mod resolver;
pub mod watcher;
