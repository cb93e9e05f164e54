use vstd::prelude::*;

use std::io::Write;

verus! {

// --- identity ---

/// Relies on whoami::username for the current user's login name.
#[verifier::external_body]
pub(crate) fn user_name() -> (r: Option<String>) {
    whoami::username().ok()
}

/// Relies on whoami::hostname for the machine's host name.
#[verifier::external_body]
pub(crate) fn host_name() -> (r: Option<String>) {
    whoami::hostname().ok()
}

// --- operating system identity ---

/// Relies on os_info::get and the display form of its os_type: one of
/// a fixed set of non-empty family names.
#[verifier::external_body]
pub(crate) fn os_type_text() -> (r: String)
    ensures
        r@.len() > 0,
{
    format!("{}", os_info::get().os_type())
}

/// Relies on os_info::get and the display form of its version.
#[verifier::external_body]
pub(crate) fn os_version_text() -> (r: String) {
    format!("{}", os_info::get().version())
}

// --- hardware and uptime ---

#[verifier::external_type_specification]
#[verifier::external_body]
pub struct ExSystem(sysinfo::System);

#[verifier::external_type_specification]
#[verifier::external_body]
pub struct ExCpu(sysinfo::Cpu);

/// Relies on sysinfo::System::new_all for a fully populated system
/// view.
#[verifier::external_body]
pub(crate) fn system_query() -> (r: sysinfo::System) {
    sysinfo::System::new_all()
}

/// Relies on sysinfo::System::refresh_all to bring the view up to
/// date.
#[verifier::external_body]
pub(crate) fn system_refresh(s: &mut sysinfo::System) {
    s.refresh_all()
}

/// Relies on sysinfo::System::cpus; hands out the first listed
/// processor, when any is.
#[verifier::external_body]
pub(crate) fn first_cpu(s: &sysinfo::System) -> (r: Option<&sysinfo::Cpu>) {
    s.cpus().first()
}

/// Relies on sysinfo::Cpu::brand for the processor's brand string.
#[verifier::external_body]
pub(crate) fn cpu_brand(c: &sysinfo::Cpu) -> (r: String) {
    c.brand().to_string()
}

/// Relies on sysinfo::Cpu::frequency for the clock in whole megahertz.
#[verifier::external_body]
pub(crate) fn cpu_frequency(c: &sysinfo::Cpu) -> (r: u64) {
    c.frequency()
}

/// Relies on sysinfo::System::total_memory for total RAM in bytes.
#[verifier::external_body]
pub(crate) fn total_memory(s: &sysinfo::System) -> (r: u64) {
    s.total_memory()
}

/// Relies on sysinfo::System::used_memory for used RAM in bytes.
#[verifier::external_body]
pub(crate) fn used_memory(s: &sysinfo::System) -> (r: u64) {
    s.used_memory()
}

/// Relies on sysinfo::System::uptime for whole seconds since boot.
#[verifier::external_body]
pub(crate) fn uptime_seconds() -> (r: u64) {
    sysinfo::System::uptime()
}

// --- executables on the search path ---

/// Relies on which::which to report whether an executable of the given
/// name is on the search path.
#[verifier::external_body]
pub(crate) fn executable_present(name: &str) -> (r: bool) {
    which::which(name).is_ok()
}

// --- output ---

/// Relies on std::io::Write::write_fmt (through writeln) to put one
/// line on standard output.
#[verifier::external_body]
pub(crate) fn emit_line(s: &str) {
    let _ = writeln!(std::io::stdout(), "{}", s);
}

} // verus!
