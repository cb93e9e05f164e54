use vstd::prelude::*;

use crate::placeholder;
use crate::probe::Platform;
use crate::text::{count_containing, count_lines_containing, count_lines_with_prefix,
    count_nonblank, count_nonblank_lines, count_with_prefix, dec_rep, lines_of, num_to_string,
    split_lines, str_eq};

verus! {

/// One package manager probed: its executable name, whether the
/// executable was found, and the captured output of its listing
/// command (a second capture for a manager listed in two parts).
pub struct PkgProbe {
    pub manager: String,
    pub present: bool,
    pub listing: Option<String>,
    pub listing2: Option<String>,
}

/// The ordered package manager executables tried on each platform.
pub open spec fn candidates_spec(p: Platform) -> Seq<Seq<char>> {
    match p {
        Platform::MacOs => seq!["brew"@, "port"@],
        Platform::Linux => seq!["pacman"@, "dpkg"@, "rpm"@],
        Platform::Windows => seq!["choco"@, "winget"@],
        Platform::Other => Seq::empty(),
    }
}

/// The package manager executables probed for a platform, in priority
/// order.
pub fn package_candidates(platform: Platform) -> (r: Vec<String>)
    ensures
        r@.map_values(|l: String| l@) == candidates_spec(platform),
{
    let mut v: Vec<String> = Vec::new();
    match platform {
        Platform::MacOs => {
            v.push(String::from_str("brew"));
            v.push(String::from_str("port"));
        },
        Platform::Linux => {
            v.push(String::from_str("pacman"));
            v.push(String::from_str("dpkg"));
            v.push(String::from_str("rpm"));
        },
        Platform::Windows => {
            v.push(String::from_str("choco"));
            v.push(String::from_str("winget"));
        },
        Platform::Other => {},
    }
    proof {
        assert(v@.map_values(|l: String| l@) =~= candidates_spec(platform));
    }
    v
}

/// Non-blank lines of an optional capture; a missing capture counts
/// nothing.
pub open spec fn opt_nonblank_count(o: Option<String>) -> nat {
    match o {
        Some(s) => count_nonblank(lines_of(s@)),
        None => 0,
    }
}

/// What a probe reports: the package count for its manager's counting
/// rule, or nothing when the manager is absent, its listing failed, or
/// (for a two-part listing) nothing at all was listed.
pub open spec fn probe_count(p: PkgProbe) -> Option<nat> {
    if !p.present {
        None
    } else if p.manager@ == "brew"@ {
        let c = opt_nonblank_count(p.listing) + opt_nonblank_count(p.listing2);
        if c > 0 {
            Some(c)
        } else {
            None
        }
    } else if p.manager@ == "port"@ {
        match p.listing {
            Some(s) => Some(count_containing(lines_of(s@), '@')),
            None => None,
        }
    } else if p.manager@ == "pacman"@ || p.manager@ == "rpm"@ {
        match p.listing {
            Some(s) => Some(count_nonblank(lines_of(s@))),
            None => None,
        }
    } else if p.manager@ == "dpkg"@ {
        match p.listing {
            Some(s) => Some(count_with_prefix(lines_of(s@), "ii"@)),
            None => None,
        }
    } else if p.manager@ == "choco"@ || p.manager@ == "winget"@ {
        match p.listing {
            Some(s) => Some(lines_of(s@).len()),
            None => None,
        }
    } else {
        None
    }
}

/// The name a manager is reported under.
pub open spec fn display_name_spec(m: Seq<char>) -> Seq<char> {
    if m == "port"@ {
        "ports"@
    } else {
        m
    }
}

/// The packages report: for the first probe that reports a count,
/// the manager's display name with the count in parentheses; the
/// placeholder when none does.
pub open spec fn packages_spec(ps: Seq<PkgProbe>) -> Seq<char>
    decreases ps.len(),
{
    if ps.len() == 0 {
        placeholder()
    } else {
        match probe_count(ps[0]) {
            Some(c) => display_name_spec(ps[0].manager@) + " ("@ + dec_rep(c) + ")"@,
            None => packages_spec(ps.drop_first()),
        }
    }
}

pub open spec fn opt_count_view(o: Option<u128>) -> Option<nat> {
    match o {
        Some(v) => Some(v as nat),
        None => None,
    }
}

fn opt_nonblank_count_exec(o: &Option<String>) -> (r: u128)
    ensures
        r == opt_nonblank_count(*o),
        r <= 0xffffffffffffffffu128,
{
    match o {
        Some(s) => {
            let lines = split_lines(s.as_str());
            count_nonblank_lines(&lines) as u128
        },
        None => 0,
    }
}

fn probe_count_exec(p: &PkgProbe) -> (r: Option<u128>)
    ensures
        opt_count_view(r) == probe_count(*p),
{
    if !p.present {
        return None;
    }
    let m = p.manager.as_str();
    if str_eq(m, "brew") {
        let c = opt_nonblank_count_exec(&p.listing) + opt_nonblank_count_exec(&p.listing2);
        if c > 0 {
            Some(c)
        } else {
            None
        }
    } else if str_eq(m, "port") {
        match &p.listing {
            Some(s) => {
                let lines = split_lines(s.as_str());
                Some(count_lines_containing(&lines, '@') as u128)
            },
            None => None,
        }
    } else if str_eq(m, "pacman") || str_eq(m, "rpm") {
        match &p.listing {
            Some(s) => {
                let lines = split_lines(s.as_str());
                Some(count_nonblank_lines(&lines) as u128)
            },
            None => None,
        }
    } else if str_eq(m, "dpkg") {
        match &p.listing {
            Some(s) => {
                let lines = split_lines(s.as_str());
                Some(count_lines_with_prefix(&lines, "ii") as u128)
            },
            None => None,
        }
    } else if str_eq(m, "choco") || str_eq(m, "winget") {
        match &p.listing {
            Some(s) => {
                let lines = split_lines(s.as_str());
                proof {
                    assert(lines@.map_values(|l: String| l@).len() == lines@.len());
                }
                Some(lines.len() as u128)
            },
            None => None,
        }
    } else {
        None
    }
}

/// Derives the packages field from the package manager probes, tried
/// in the order given.
pub fn packages_field(probes: &Vec<PkgProbe>) -> (r: String)
    ensures
        r@ == packages_spec(probes@),
{
    let ghost ps = probes@;
    proof {
        assert(ps.skip(0) =~= ps);
    }
    let mut i: usize = 0;
    while i < probes.len()
        invariant
            0 <= i <= ps.len(),
            ps == probes@,
            packages_spec(ps) == packages_spec(ps.skip(i as int)),
        decreases ps.len() - i,
    {
        proof {
            assert(ps.skip(i as int)[0] == ps[i as int]);
            assert(ps.skip(i as int).drop_first() =~= ps.skip(i + 1));
        }
        match probe_count_exec(&probes[i]) {
            Some(c) => {
                let mut s = if str_eq(probes[i].manager.as_str(), "port") {
                    String::from_str("ports")
                } else {
                    probes[i].manager.clone()
                };
                s.append(" (");
                let num = num_to_string(c);
                s.append(num.as_str());
                s.append(")");
                proof {
                    assert(s@ =~= packages_spec(ps.skip(i as int)));
                }
                return s;
            },
            None => {},
        }
        i = i + 1;
    }
    proof {
        assert(ps.skip(ps.len() as int) =~= Seq::<PkgProbe>::empty());
    }
    crate::placeholder_value()
}

/// Probes which of the named executables are on the search path,
/// one answer per name, in order.
pub fn probe_presence(names: &Vec<String>) -> (r: Vec<bool>)
    ensures
        r@.len() == names@.len(),
{
    let mut out: Vec<bool> = Vec::new();
    let mut i: usize = 0;
    while i < names.len()
        invariant
            0 <= i <= names@.len(),
            out@.len() == i,
        decreases names@.len() - i,
    {
        out.push(crate::host::executable_present(names[i].as_str()));
        i = i + 1;
    }
    out
}

/// When no package manager executable is present at all, the packages
/// report is exactly the placeholder.
pub proof fn lemma_packages_none_present(ps: Seq<PkgProbe>)
    requires
        forall|i: int| 0 <= i < ps.len() ==> !(#[trigger] ps[i]).present,
    ensures
        packages_spec(ps) == placeholder(),
    decreases ps.len(),
{
    if ps.len() > 0 {
        assert(!ps[0].present);
        assert forall|i: int| 0 <= i < ps.drop_first().len() implies !(#[trigger] ps.drop_first()[i]).present by {
            assert(ps.drop_first()[i] == ps[i + 1]);
        }
        lemma_packages_none_present(ps.drop_first());
    }
}

} // verus!
