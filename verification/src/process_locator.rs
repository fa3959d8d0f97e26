//! Finding the target process among the running ones.
//!
//! Enumerating the OS process table, opening a handle with minimal rights
//! and reading the base module's load address are OS work and live outside
//! the library.  What is decided here, and verified, is the match itself:
//! the first enumerated process whose image name equals the target name
//! exactly.  Not finding one is an expected outcome, not an error.

use vstd::prelude::*;

verus! {

/// The image name of the game process this scanner targets.
pub const GAME_PROCESS_NAME: &'static str = "ffxiv_dx11.exe";

/// One enumerated running process: its id and its image name.
pub struct ProcessEntry {
    pub pid: u32,
    pub name: String,
}

/// The index of the first enumerated process whose image name equals
/// `name` exactly, if any.
pub fn locate(processes: &Vec<ProcessEntry>, name: &String) -> (r: Option<usize>)
    ensures
        r matches Some(i) ==> i < processes@.len() && processes@[i as int].name@ == name@ && (
        forall|j: int| 0 <= j < i ==> processes@[j].name@ != name@),
        r is None ==> (forall|j: int|
            0 <= j < processes@.len() ==> processes@[j].name@ != name@),
{
    let mut i: usize = 0;
    while i < processes.len()
        invariant
            i <= processes@.len(),
            forall|j: int| 0 <= j < i ==> processes@[j].name@ != name@,
        decreases processes@.len() - i,
    {
        let entry = &processes[i];
        if entry.name.eq(name) {
            return Some(i);
        }
        i = i + 1;
    }
    None
}

} // verus!
