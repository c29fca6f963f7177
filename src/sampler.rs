use vstd::prelude::*;

use sysinfo::System;

verus! {

/// The system-information sampler of the `sysinfo` crate. It is costly to
/// build, so one instance is kept and reused.
#[verifier::external_type_specification]
#[verifier::external_body]
pub struct ExSystem(sysinfo::System);

/// Relies on `sysinfo::System::new_with_specifics` with
/// `RefreshKind::nothing()`: a sampler that has read nothing yet.
#[verifier::external_body]
pub(crate) fn new_sampler() -> (r: System) {
    System::new_with_specifics(sysinfo::RefreshKind::nothing())
}

/// Relies on `sysinfo::System::refresh_processes`: re-reads the process with
/// the given pid and drops it from the sampler's view if it has died. What the
/// sampler then holds depends on the machine, so nothing is stated of it.
#[verifier::external_body]
pub(crate) fn refresh_process(sampler: &mut System, pid: u32) {
    let pids = [sysinfo::Pid::from_u32(pid)];
    sampler.refresh_processes(sysinfo::ProcessesToUpdate::Some(&pids), true);
}

/// Relies on `sysinfo::System::process`: whether the sampler's last view holds
/// a process with the given pid. That depends on the machine, so nothing is
/// stated of the answer.
#[verifier::external_body]
pub(crate) fn process_present(sampler: &System, pid: u32) -> (r: bool) {
    sampler.process(sysinfo::Pid::from_u32(pid)).is_some()
}

} // verus!
