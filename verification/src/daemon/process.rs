//! The processes of the machine, as the `sysinfo` crate reports them.
//!
//! Whether a process exists, and whether a signal reaches it, is a fact of
//! the machine at the moment of asking: nothing is promised of the answers.

use sysinfo::{Pid, ProcessesToUpdate, Signal, System};
use vstd::prelude::*;

verus! {

/// Looks the process `pid` up in a fresh table of processes
/// (`System::new_all`, `System::refresh_processes`, `System::process`) and
/// says whether it is there.
#[verifier::external_body]
pub(crate) fn process_exists(pid: u32) -> (found: bool) {
    let daemon_pid = Pid::from_u32(pid);
    let mut system = System::new_all();
    system.refresh_processes(ProcessesToUpdate::Some(&[daemon_pid]), true);
    system.process(daemon_pid).is_some()
}

/// Looks the process `pid` up as `process_exists` does and, where it is
/// there, asks it to terminate (`Process::kill_with` with `Signal::Term`).
/// Nothing comes back where there is no such process; otherwise what
/// `kill_with` returned: nothing where the platform has no such signal, and
/// else whether the signal was delivered.
#[verifier::external_body]
pub(crate) fn terminate_process(pid: u32) -> (sent: Option<Option<bool>>) {
    let daemon_pid = Pid::from_u32(pid);
    let mut system = System::new_all();
    system.refresh_processes(ProcessesToUpdate::Some(&[daemon_pid]), true);
    match system.process(daemon_pid) {
        Some(process) => Some(process.kill_with(Signal::Term)),
        None => None,
    }
}

} // verus!
