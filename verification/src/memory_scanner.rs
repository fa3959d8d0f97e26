//! The primitive memory reader for a live target process.
//!
//! The OS calls live behind two trusted wrappers; everything else here is
//! verified.  The byte-order policy of the whole design is enforced in
//! [`read_memory`]: the target process is little-endian, and the raw buffer
//! is reversed exactly once, here, so that every numeric decode downstream
//! reads big-endian.

use vstd::prelude::*;

use benfred_read_process_memory::{copy_address, Pid, ProcessHandle};

use crate::game_scanner::ScanError;
use crate::resolver::reversed;

verus! {

/// Declares the outside crate's opaque handle to a running process so that
/// it can pass through signatures; nothing is assumed of its contents.
#[verifier::external_type_specification]
#[verifier::external_body]
pub struct ExProcessHandle(ProcessHandle);

/// Relies on benfred_read_process_memory's `TryFrom<Pid> for ProcessHandle`:
/// turns a process id into an OS handle, failing when the OS refuses (the
/// process is gone, or access is denied).  Nothing can be promised of the
/// outcome.
#[verifier::external_body]
fn open_handle(process_id: u32) -> (r: Option<ProcessHandle>) {
    match ProcessHandle::try_from(process_id as Pid) {
        Ok(handle) => Some(handle),
        Err(_) => None,
    }
}

/// Relies on benfred_read_process_memory::copy_address: on success the
/// buffer holds exactly `size` bytes copied from `address` in the target
/// process, in the target's own (little-endian) order; whether it succeeds
/// depends on the target process and the OS.
#[verifier::external_body]
fn copy_mem(handle: &ProcessHandle, address: u64, size: usize) -> (r: Option<Vec<u8>>)
    ensures
        r matches Some(b) ==> b@.len() == size,
{
    match copy_address(address as usize, size, handle) {
        Ok(bytes) => Some(bytes),
        Err(_) => None,
    }
}

/// Read `size` bytes at `address` in the target process, reversed into
/// big-endian order.  Fails with `HandleConversionError` when the process
/// id yields no usable handle, and with `MemoryReadError` when the OS read
/// fails; no retry happens here — recovery is the watcher's business.
pub fn read_memory(process_id: u32, address: u64, size: usize) -> (r: Result<Vec<u8>, ScanError>)
    ensures
        r matches Ok(b) ==> b@.len() == size,
        r matches Err(e) ==> (e is HandleConversionError || e is MemoryReadError),
{
    let handle = match open_handle(process_id) {
        Some(h) => h,
        None => {
            return Err(ScanError::HandleConversionError);
        },
    };
    let raw = match copy_mem(&handle, address, size) {
        Some(b) => b,
        None => {
            return Err(ScanError::MemoryReadError);
        },
    };
    Ok(reversed(&raw))
}

} // verus!
