//! The operating system's process table, as the `sysinfo` crate reads it.
//!
//! Everything in this file is trusted: it states what the calls into
//! `sysinfo` do, and nothing here is proved.

use sysinfo::{Pid, Process, System};
use vstd::prelude::*;

verus! {

/// Declares `sysinfo::System`, a snapshot of the machine's state, as a
/// type whose inside is not looked at.
#[verifier::external_type_specification]
#[verifier::external_body]
pub struct ExSystem(sysinfo::System);

/// Declares `sysinfo::Process`, one process of a snapshot, as a type
/// whose inside is not looked at.
#[verifier::external_type_specification]
#[verifier::external_body]
pub struct ExProcess(sysinfo::Process);

/// The ids of the processes that a snapshot of the process table holds:
/// the numbers `pid` for which it has a process under `Pid::from_u32(pid)`.
pub uninterp spec fn process_ids(table: System) -> Set<u32>;

/// Trusted: calls `System::new_all`, which reads the state of the machine
/// at the time of the call. Nothing is claimed of what it holds.
#[verifier::external_body]
pub(crate) fn snapshot() -> (table: System) {
    System::new_all()
}

/// Trusted: calls `System::process` with the id made by `Pid::from_u32`,
/// which looks the id up among the processes of the snapshot. It returns
/// a process exactly when the snapshot holds one under that id.
#[verifier::external_body]
pub(crate) fn find_process<'a>(table: &'a System, pid: u32) -> (r: Option<&'a Process>)
    ensures
        r is Some <==> process_ids(*table).contains(pid),
{
    table.process(Pid::from_u32(pid))
}

/// Trusted: calls `Process::kill`, which sends the kill signal to the
/// process and says whether the signal could be sent. Nothing is claimed
/// of that answer.
#[verifier::external_body]
pub(crate) fn kill(process: &Process) -> (sent: bool) {
    process.kill()
}

} // verus!
