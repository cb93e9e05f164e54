use vstd::prelude::*;

use crate::placeholder;
use crate::text::{basename, basename_spec, dec_rep, num_to_string, or_placeholder, or_placeholder_spec,
    trim_spec, trim_str};

verus! {

/// The platform family a probe runs on.
#[derive(Clone, Copy, Debug, PartialEq, Eq, Structural)]
pub enum Platform {
    MacOs,
    Linux,
    Windows,
    Other,
}

/// The value of an optional probe observation.
pub open spec fn opt_str_view(o: Option<String>) -> Option<Seq<char>> {
    match o {
        Some(s) => Some(s@),
        None => None,
    }
}

// --- kernel version ---

/// The kernel report: the command output trimmed of surrounding
/// whitespace, the placeholder when the command failed or said nothing.
pub open spec fn kernel_spec(output: Option<String>) -> Seq<char> {
    match output {
        Some(s) => or_placeholder_spec(trim_spec(s@)),
        None => placeholder(),
    }
}

/// Derives the kernel field from the version command's output.
pub fn kernel_field(output: &Option<String>) -> (r: String)
    ensures
        r@ == kernel_spec(*output),
{
    match output {
        Some(s) => or_placeholder(trim_str(s.as_str())),
        None => crate::placeholder_value(),
    }
}

// --- parent process inspection ---

/// The parent process's command name: the process listing's output
/// trimmed, reduced to its final path component; nothing when the
/// listing failed or was blank.
pub open spec fn parent_name_spec(platform: Platform, ppid_comm: Option<String>) -> Option<
    Seq<char>,
> {
    match ppid_comm {
        Some(s) => {
            let t = trim_spec(s@);
            if t.len() > 0 {
                Some(basename_spec(t, platform))
            } else {
                None
            }
        },
        None => None,
    }
}

/// Extracts the parent process name from the process listing's output.
pub fn parent_process_name(platform: Platform, ppid_comm: &Option<String>) -> (r: Option<String>)
    ensures
        opt_str_view(r) == parent_name_spec(platform, *ppid_comm),
{
    match ppid_comm {
        Some(s) => {
            let t = trim_str(s.as_str());
            if t.as_str().unicode_len() > 0 {
                Some(basename(t.as_str(), platform))
            } else {
                None
            }
        },
        None => None,
    }
}

// --- shell detection ---

/// The shell report: the shell variable's final path component when the
/// variable is set; on Windows otherwise a shell inferred from the
/// command interpreter variables; otherwise the parent process's name;
/// the placeholder as the last resort.
pub open spec fn shell_spec(
    platform: Platform,
    shell_var: Option<String>,
    ps_module_path: bool,
    comspec: Option<String>,
    ppid_comm: Option<String>,
) -> Seq<char> {
    match shell_var {
        Some(v) => basename_spec(v@, platform),
        None => match platform {
            Platform::Windows => if ps_module_path {
                "powershell"@
            } else {
                match comspec {
                    Some(c) => basename_spec(c@, platform),
                    None => "cmd"@,
                }
            },
            _ => match parent_name_spec(platform, ppid_comm) {
                Some(n) => n,
                None => placeholder(),
            },
        },
    }
}

/// Derives the shell field from the ambient observations.
pub fn shell_field(
    platform: Platform,
    shell_var: &Option<String>,
    ps_module_path: bool,
    comspec: &Option<String>,
    ppid_comm: &Option<String>,
) -> (r: String)
    ensures
        r@ == shell_spec(platform, *shell_var, ps_module_path, *comspec, *ppid_comm),
{
    match shell_var {
        Some(v) => basename(v.as_str(), platform),
        None => match platform {
            Platform::Windows => {
                if ps_module_path {
                    String::from_str("powershell")
                } else {
                    match comspec {
                        Some(c) => basename(c.as_str(), platform),
                        None => String::from_str("cmd"),
                    }
                }
            },
            _ => {
                match parent_process_name(platform, ppid_comm) {
                    Some(n) => n,
                    None => crate::placeholder_value(),
                }
            },
        },
    }
}

// --- terminal detection ---

/// The ordered environment variables inspected for a terminal identity.
pub open spec fn terminal_keys_spec() -> Seq<Seq<char>> {
    seq![
        "TERM_PROGRAM"@,
        "TERMINAL_EMULATOR"@,
        "WEZTERM_EXECUTABLE"@,
        "ITERM_SESSION_ID"@,
        "TERM"@,
        "WT_SESSION"@,
    ]
}

/// The priority list of environment variables naming the terminal.
pub fn terminal_env_keys() -> (r: Vec<String>)
    ensures
        r@.map_values(|l: String| l@) == terminal_keys_spec(),
{
    let mut v: Vec<String> = Vec::new();
    v.push(String::from_str("TERM_PROGRAM"));
    v.push(String::from_str("TERMINAL_EMULATOR"));
    v.push(String::from_str("WEZTERM_EXECUTABLE"));
    v.push(String::from_str("ITERM_SESSION_ID"));
    v.push(String::from_str("TERM"));
    v.push(String::from_str("WT_SESSION"));
    proof {
        assert(v@.map_values(|l: String| l@) =~= terminal_keys_spec());
    }
    v
}

/// The first set, non-empty value in the priority order.
pub open spec fn first_nonempty(vals: Seq<Option<String>>) -> Option<Seq<char>>
    decreases vals.len(),
{
    if vals.len() == 0 {
        None
    } else {
        match vals[0] {
            Some(v) => if v@.len() > 0 {
                Some(v@)
            } else {
                first_nonempty(vals.drop_first())
            },
            None => first_nonempty(vals.drop_first()),
        }
    }
}

/// The terminal report: the first non-empty terminal variable; on
/// Windows otherwise a fixed console name; otherwise the parent
/// process's name; the placeholder as the last resort.
pub open spec fn terminal_spec(
    platform: Platform,
    vals: Seq<Option<String>>,
    wt_session: bool,
    ppid_comm: Option<String>,
) -> Seq<char> {
    match first_nonempty(vals) {
        Some(v) => v,
        None => match platform {
            Platform::Windows => if wt_session {
                "Windows Terminal"@
            } else {
                "ConsoleHost"@
            },
            _ => match parent_name_spec(platform, ppid_comm) {
                Some(n) => n,
                None => placeholder(),
            },
        },
    }
}

/// Derives the terminal field from the variable values, in the order of
/// `terminal_env_keys`, and the ambient observations.
pub fn terminal_field(
    platform: Platform,
    values: &Vec<Option<String>>,
    wt_session: bool,
    ppid_comm: &Option<String>,
) -> (r: String)
    ensures
        r@ == terminal_spec(platform, values@, wt_session, *ppid_comm),
{
    let ghost vals = values@;
    proof {
        assert(vals.skip(0) =~= vals);
    }
    let mut i: usize = 0;
    while i < values.len()
        invariant
            0 <= i <= vals.len(),
            vals == values@,
            first_nonempty(vals) == first_nonempty(vals.skip(i as int)),
        decreases vals.len() - i,
    {
        proof {
            assert(vals.skip(i as int)[0] == vals[i as int]);
            assert(vals.skip(i as int).drop_first() =~= vals.skip(i + 1));
        }
        match &values[i] {
            Some(v) => {
                if v.as_str().unicode_len() > 0 {
                    return v.clone();
                }
            },
            None => {},
        }
        i = i + 1;
    }
    proof {
        assert(vals.skip(vals.len() as int) =~= Seq::<Option<String>>::empty());
    }
    match platform {
        Platform::Windows => {
            if wt_session {
                String::from_str("Windows Terminal")
            } else {
                String::from_str("ConsoleHost")
            }
        },
        _ => {
            match parent_process_name(platform, ppid_comm) {
                Some(n) => n,
                None => crate::placeholder_value(),
            }
        },
    }
}

// --- desktop environment ---

/// The desktop report: a fixed name on platforms with a single shell,
/// else the desktop session variables in order, else the placeholder.
pub open spec fn de_wm_spec(
    platform: Platform,
    xdg: Option<String>,
    session: Option<String>,
) -> Seq<char> {
    match platform {
        Platform::MacOs => "Aqua"@,
        Platform::Windows => "Explorer"@,
        _ => match xdg {
            Some(v) => v@,
            None => match session {
                Some(v) => v@,
                None => placeholder(),
            },
        },
    }
}

/// Derives the desktop environment field.
pub fn de_wm_field(platform: Platform, xdg: &Option<String>, session: &Option<String>) -> (r:
    String)
    ensures
        r@ == de_wm_spec(platform, *xdg, *session),
{
    match platform {
        Platform::MacOs => String::from_str("Aqua"),
        Platform::Windows => String::from_str("Explorer"),
        _ => match xdg {
            Some(v) => v.clone(),
            None => match session {
                Some(v) => v.clone(),
                None => crate::placeholder_value(),
            },
        },
    }
}

// --- host identity ---

/// The host report: the queried name (the placeholder if it came back
/// empty), a fixed "unknown" when the query failed.
pub open spec fn host_field_spec(name: Option<String>) -> Seq<char> {
    match name {
        Some(h) => or_placeholder_spec(h@),
        None => "unknown"@,
    }
}

/// Derives the host field from the host name query's result.
pub fn host_field(name: Option<String>) -> (r: String)
    ensures
        r@ == host_field_spec(name),
{
    match name {
        Some(h) => or_placeholder(h),
        None => String::from_str("unknown"),
    }
}

// --- operating system description ---

/// The pretty OS description: the family name and the version, one
/// space between.
pub open spec fn os_pretty_spec(name: Seq<char>, version: Seq<char>) -> Seq<char> {
    name + " "@ + version
}

/// Composes the pretty OS field from the family name and the version.
pub fn os_pretty_field(name: &str, version: &str) -> (r: String)
    ensures
        r@ == os_pretty_spec(name@, version@),
{
    let mut s = String::from_str(name);
    s.append(" ");
    s.append(version);
    proof {
        assert(s@ =~= os_pretty_spec(name@, version@));
    }
    s
}

// --- processor ---

/// The processor report: the first processor's brand string with its
/// frequency in whole megahertz, the placeholder when no processor was
/// listed.
pub open spec fn cpu_spec(cpu: Option<(String, u64)>) -> Seq<char> {
    match cpu {
        Some(bf) => bf.0@ + " ("@ + dec_rep(bf.1 as nat) + " MHz)"@,
        None => placeholder(),
    }
}

/// Formats the processor field from the first processor's brand and
/// frequency.
pub fn cpu_field(cpu: &Option<(String, u64)>) -> (r: String)
    ensures
        r@ == cpu_spec(*cpu),
{
    match cpu {
        Some(bf) => {
            let mut s = bf.0.clone();
            s.append(" (");
            let f = num_to_string(bf.1 as u128);
            s.append(f.as_str());
            s.append(" MHz)");
            proof {
                assert(s@ =~= cpu_spec(*cpu));
            }
            s
        },
        None => crate::placeholder_value(),
    }
}

} // verus!
