use vstd::prelude::*;

use crate::extract::{gpu_field, gpu_spec, resolution_field, resolution_spec};
use crate::host;
use crate::memory::memory_field;
use crate::pkg::{packages_field, packages_spec, PkgProbe};
use crate::probe::{cpu_field, de_wm_field, de_wm_spec, host_field, kernel_field, kernel_spec,
    os_pretty_field, shell_field, shell_spec, terminal_field, terminal_spec, Platform};
use crate::text::{or_placeholder, or_placeholder_spec};
use crate::uptime::format_uptime;

verus! {

/// The host snapshot: one string per displayed attribute, each always
/// populated.
#[derive(Clone, Debug)]
pub struct Info {
    pub user: String,
    pub host: String,
    pub os_name: String,
    pub os_pretty: String,
    pub kernel: String,
    pub uptime: String,
    pub shell: String,
    pub terminal: String,
    pub packages: String,
    pub resolution: String,
    pub de_wm: String,
    pub cpu: String,
    pub gpu: String,
    pub memory: String,
}

impl Info {
    /// Every field carries a value: a non-empty description, or
    /// exactly the placeholder (which is itself non-empty).
    pub open spec fn wf(&self) -> bool {
        &&& self.user@.len() > 0
        &&& self.host@.len() > 0
        &&& self.os_name@.len() > 0
        &&& self.os_pretty@.len() > 0
        &&& self.kernel@.len() > 0
        &&& self.uptime@.len() > 0
        &&& self.shell@.len() > 0
        &&& self.terminal@.len() > 0
        &&& self.packages@.len() > 0
        &&& self.resolution@.len() > 0
        &&& self.de_wm@.len() > 0
        &&& self.cpu@.len() > 0
        &&& self.gpu@.len() > 0
        &&& self.memory@.len() > 0
    }
}

/// Ambient observations only the caller can collect: environment
/// variable values and captured output of external commands. A None
/// stands for a variable that is unset or a command that failed.
pub struct Ambient {
    pub platform: Platform,
    pub shell_var: Option<String>,
    pub ps_module_path: bool,
    pub comspec: Option<String>,
    pub terminal_vars: Vec<Option<String>>,
    pub wt_session: bool,
    pub ppid_comm: Option<String>,
    pub kernel_output: Option<String>,
    pub xdg_current_desktop: Option<String>,
    pub desktop_session: Option<String>,
    pub resolution_output: Option<String>,
    pub gpu_output: Option<String>,
    pub package_probes: Vec<PkgProbe>,
}

/// Runs every probe once and aggregates the snapshot. Identity, OS,
/// uptime, processor and memory come from the system query wrappers;
/// the rest derive from the ambient observations. A probe that found
/// nothing contributes the placeholder, so every field is populated.
pub fn gather_info(a: &Ambient) -> (info: Info)
    ensures
        info.wf(),
        info.kernel@ == or_placeholder_spec(kernel_spec(a.kernel_output)),
        info.shell@ == or_placeholder_spec(
            shell_spec(a.platform, a.shell_var, a.ps_module_path, a.comspec, a.ppid_comm),
        ),
        info.terminal@ == or_placeholder_spec(
            terminal_spec(a.platform, a.terminal_vars@, a.wt_session, a.ppid_comm),
        ),
        info.packages@ == or_placeholder_spec(packages_spec(a.package_probes@)),
        info.resolution@ == or_placeholder_spec(resolution_spec(a.platform, a.resolution_output)),
        info.de_wm@ == or_placeholder_spec(
            de_wm_spec(a.platform, a.xdg_current_desktop, a.desktop_session),
        ),
        info.gpu@ == or_placeholder_spec(gpu_spec(a.platform, a.gpu_output)),
{
    proof {
        reveal_strlit("-");
    }
    let user = or_placeholder(
        match host::user_name() {
            Some(u) => u,
            None => crate::placeholder_value(),
        },
    );
    let host_value = host_field(host::host_name());
    proof {
        reveal_strlit("unknown");
    }
    let os_name_raw = host::os_type_text();
    let version = host::os_version_text();
    let os_pretty = os_pretty_field(os_name_raw.as_str(), version.as_str());
    let os_name = or_placeholder(os_name_raw);

    let mut sys = host::system_query();
    host::system_refresh(&mut sys);
    let cpu_info: Option<(String, u64)> = match host::first_cpu(&sys) {
        Some(c) => Some((host::cpu_brand(c), host::cpu_frequency(c))),
        None => None,
    };
    let cpu = or_placeholder(cpu_field(&cpu_info));
    let memory = or_placeholder(memory_field(host::used_memory(&sys), host::total_memory(&sys)));
    let uptime = or_placeholder(format_uptime(host::uptime_seconds()));

    let kernel = or_placeholder(kernel_field(&a.kernel_output));
    let shell = or_placeholder(
        shell_field(a.platform, &a.shell_var, a.ps_module_path, &a.comspec, &a.ppid_comm),
    );
    let terminal = or_placeholder(
        terminal_field(a.platform, &a.terminal_vars, a.wt_session, &a.ppid_comm),
    );
    let packages = or_placeholder(packages_field(&a.package_probes));
    let resolution = or_placeholder(resolution_field(a.platform, &a.resolution_output));
    let de_wm = or_placeholder(de_wm_field(a.platform, &a.xdg_current_desktop, &a.desktop_session));
    let gpu = or_placeholder(gpu_field(a.platform, &a.gpu_output));

    Info {
        user,
        host: host_value,
        os_name,
        os_pretty,
        kernel,
        uptime,
        shell,
        terminal,
        packages,
        resolution,
        de_wm,
        cpu,
        gpu,
        memory,
    }
}

} // verus!
