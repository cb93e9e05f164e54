use vstd::prelude::*;

use crate::placeholder;
use crate::probe::Platform;
use crate::text::{char_is_digit, is_digit_char, join_spec, join_with, or_placeholder,
    or_placeholder_spec, trim_spec, trim_str};

verus! {

// --- primitive pattern pieces ---

/// Whether the pattern occurs in the text starting at index i.
pub open spec fn occurs_at(s: Seq<char>, p: Seq<char>, i: int) -> bool {
    0 <= i && i + p.len() <= s.len() && s.subrange(i, i + p.len()) == p
}

/// The end of the run of digits starting at i.
pub open spec fn digit_run_end(s: Seq<char>, i: int) -> int
    decreases s.len() - i,
    when 0 <= i <= s.len()
{
    if i < s.len() && is_digit_char(s[i]) {
        digit_run_end(s, i + 1)
    } else {
        i
    }
}

/// The end of the line starting at i: the next newline, or the end of
/// the text.
pub open spec fn line_end_from(s: Seq<char>, i: int) -> int
    decreases s.len() - i,
    when 0 <= i <= s.len()
{
    if i < s.len() && s[i] != '\n' {
        line_end_from(s, i + 1)
    } else {
        i
    }
}

fn occurs_at_exec(s: &str, p: &str, i: usize, n: usize) -> (r: bool)
    requires
        n == s@.len(),
        i <= n,
    ensures
        r == occurs_at(s@, p@, i as int),
{
    let m = p.unicode_len();
    if m > n - i {
        proof {
            assert(!occurs_at(s@, p@, i as int));
        }
        return false;
    }
    let mut k: usize = 0;
    while k < m
        invariant
            0 <= k <= m,
            i + m <= n,
            n == s@.len(),
            m == p@.len(),
            forall|t: int| 0 <= t < k ==> s@[i + t] == p@[t],
        decreases m - k,
    {
        if s.get_char(i + k) != p.get_char(k) {
            proof {
                assert(!occurs_at(s@, p@, i as int)) by {
                    if occurs_at(s@, p@, i as int) {
                        assert(s@.subrange(i as int, i + m)[k as int] == p@[k as int]);
                    }
                }
            }
            return false;
        }
        k = k + 1;
    }
    proof {
        assert(s@.subrange(i as int, i + m) =~= p@);
    }
    true
}

fn digit_run_end_exec(s: &str, i: usize, n: usize) -> (r: usize)
    requires
        n == s@.len(),
        i <= n,
    ensures
        i <= r <= n,
        r == digit_run_end(s@, i as int),
{
    let mut j: usize = i;
    while j < n && char_is_digit(s.get_char(j))
        invariant
            i <= j <= n,
            n == s@.len(),
            digit_run_end(s@, i as int) == digit_run_end(s@, j as int),
        decreases n - j,
    {
        j = j + 1;
    }
    j
}

fn line_end_exec(s: &str, i: usize, n: usize) -> (r: usize)
    requires
        n == s@.len(),
        i <= n,
    ensures
        i <= r <= n,
        r == line_end_from(s@, i as int),
{
    let mut j: usize = i;
    while j < n && s.get_char(j) != '\n'
        invariant
            i <= j <= n,
            n == s@.len(),
            line_end_from(s@, i as int) == line_end_from(s@, j as int),
        decreases n - j,
    {
        j = j + 1;
    }
    j
}

// --- the display resolution pattern ---

/// A match of the resolution pattern at i: the marker, a non-empty
/// digit run (the width), the separator, a non-empty digit run (the
/// height). Yields the width digits, the height digits and the match
/// end.
pub open spec fn res_match_at(s: Seq<char>, i: int) -> Option<(Seq<char>, Seq<char>, int)> {
    if occurs_at(s, "Resolution: "@, i) {
        let ws = i + "Resolution: "@.len();
        let we = digit_run_end(s, ws);
        if we > ws && occurs_at(s, " x "@, we) {
            let hs = we + " x "@.len();
            let he = digit_run_end(s, hs);
            if he > hs {
                Some((s.subrange(ws, we), s.subrange(hs, he), he))
            } else {
                None
            }
        } else {
            None
        }
    } else {
        None
    }
}

/// Every non-overlapping match of the resolution pattern, scanned left
/// to right, each rendered as width, the letter x, height.
pub open spec fn res_scan(s: Seq<char>, i: int) -> Seq<Seq<char>>
    decreases s.len() - i,
    when 0 <= i
{
    if i >= s.len() {
        Seq::empty()
    } else {
        match res_match_at(s, i) {
            Some(m) => {
                let next = if i < m.2 <= s.len() {
                    m.2
                } else {
                    i + 1
                };
                seq![m.0 + "x"@ + m.1] + res_scan(s, next)
            },
            None => res_scan(s, i + 1),
        }
    }
}

/// Extracts every width-by-height pair that the resolution pattern
/// matches in the text.
pub fn extract_resolutions(s: &str) -> (r: Vec<String>)
    ensures
        r@.map_values(|l: String| l@) == res_scan(s@, 0),
{
    let n = s.unicode_len();
    let mut out: Vec<String> = Vec::new();
    let mut i: usize = 0;
    proof {
        assert(out@.map_values(|l: String| l@) =~= Seq::<Seq<char>>::empty());
    }
    while i < n
        invariant
            0 <= i <= n,
            n == s@.len(),
            res_scan(s@, 0) == out@.map_values(|l: String| l@) + res_scan(s@, i as int),
        decreases n - i,
    {
        let marker = "Resolution: ";
        let sep = " x ";
        let mut advanced = false;
        if occurs_at_exec(s, marker, i, n) {
            let ml = marker.unicode_len();
            let ws = i + ml;
            let we = digit_run_end_exec(s, ws, n);
            if we > ws && occurs_at_exec(s, sep, we, n) {
                let sl = sep.unicode_len();
                let hs = we + sl;
                let he = digit_run_end_exec(s, hs, n);
                if he > hs {
                    let ghost m = res_match_at(s@, i as int);
                    proof {
                        assert(m == Some(
                            (s@.subrange(ws as int, we as int), s@.subrange(hs as int, he as int),
                            he as int),
                        ));
                    }
                    let mut item = String::from_str(s.substring_char(ws, we));
                    item.append("x");
                    item.append(s.substring_char(hs, he));
                    proof {
                        let prev = out@.map_values(|l: String| l@);
                        assert(item@ =~= s@.subrange(ws as int, we as int) + "x"@ + s@.subrange(
                            hs as int,
                            he as int,
                        ));
                        assert(out@.push(item).map_values(|l: String| l@) =~= prev.push(item@));
                        assert(prev.push(item@) + res_scan(s@, he as int) =~= prev + (seq![item@]
                            + res_scan(s@, he as int)));
                    }
                    out.push(item);
                    i = he;
                    advanced = true;
                }
            }
        }
        if !advanced {
            proof {
                assert(res_match_at(s@, i as int) is None);
            }
            i = i + 1;
        }
    }
    out
}

/// The display resolution report: on the Mac platform each match of
/// the resolution pattern in the profiler output, comma separated; on
/// the others the query output trimmed; the placeholder when nothing
/// was found.
pub open spec fn resolution_spec(platform: Platform, output: Option<String>) -> Seq<char> {
    match platform {
        Platform::MacOs => match output {
            Some(s) => {
                let rs = res_scan(s@, 0);
                if rs.len() > 0 {
                    join_spec(rs, ", "@)
                } else {
                    placeholder()
                }
            },
            None => placeholder(),
        },
        Platform::Linux => match output {
            Some(s) => or_placeholder_spec(trim_spec(s@)),
            None => placeholder(),
        },
        Platform::Windows => match output {
            Some(s) => or_placeholder_spec(trim_spec(s@)),
            None => placeholder(),
        },
        Platform::Other => placeholder(),
    }
}

/// Derives the resolution field from the display query's output.
pub fn resolution_field(platform: Platform, output: &Option<String>) -> (r: String)
    ensures
        r@ == resolution_spec(platform, *output),
{
    match platform {
        Platform::MacOs => match output {
            Some(s) => {
                let found = extract_resolutions(s.as_str());
                if found.len() > 0 {
                    join_with(&found, ", ")
                } else {
                    crate::placeholder_value()
                }
            },
            None => crate::placeholder_value(),
        },
        Platform::Linux => match output {
            Some(s) => or_placeholder(trim_str(s.as_str())),
            None => crate::placeholder_value(),
        },
        Platform::Windows => match output {
            Some(s) => or_placeholder(trim_str(s.as_str())),
            None => crate::placeholder_value(),
        },
        Platform::Other => crate::placeholder_value(),
    }
}

// --- the graphics chipset pattern ---

/// A match of the chipset pattern at i: the marker followed by at
/// least one more character on the same line.
pub open spec fn gpu_match_at(s: Seq<char>, i: int) -> bool {
    occurs_at(s, "Chipset Model: "@, i) && i + "Chipset Model: "@.len() < s.len() && s[i
        + "Chipset Model: "@.len()] != '\n'
}

/// The first match of the chipset pattern: the rest of its line,
/// trimmed.
pub open spec fn gpu_scan(s: Seq<char>, i: int) -> Option<Seq<char>>
    decreases s.len() - i,
    when 0 <= i
{
    if i >= s.len() {
        None
    } else if gpu_match_at(s, i) {
        let a = i + "Chipset Model: "@.len();
        Some(trim_spec(s.subrange(a, line_end_from(s, a))))
    } else {
        gpu_scan(s, i + 1)
    }
}

/// Extracts the first chipset name the pattern matches in the text.
pub fn extract_gpu(s: &str) -> (r: Option<String>)
    ensures
        crate::probe::opt_str_view(r) == gpu_scan(s@, 0),
{
    let n = s.unicode_len();
    let mut i: usize = 0;
    while i < n
        invariant
            0 <= i <= n,
            n == s@.len(),
            gpu_scan(s@, 0) == gpu_scan(s@, i as int),
        decreases n - i,
    {
        let marker = "Chipset Model: ";
        let ml = marker.unicode_len();
        if occurs_at_exec(s, marker, i, n) {
            let a = i + ml;
            if a < n && s.get_char(a) != '\n' {
                let e = line_end_exec(s, a, n);
                let found = trim_str(s.substring_char(a, e));
                proof {
                    assert(gpu_match_at(s@, i as int));
                }
                return Some(found);
            }
        }
        proof {
            assert(!gpu_match_at(s@, i as int));
        }
        i = i + 1;
    }
    None
}

/// The graphics report: on the Mac platform the first chipset name in
/// the profiler output; on the others the query output trimmed; the
/// placeholder when nothing was found.
pub open spec fn gpu_spec(platform: Platform, output: Option<String>) -> Seq<char> {
    match platform {
        Platform::MacOs => match output {
            Some(s) => match gpu_scan(s@, 0) {
                Some(t) => or_placeholder_spec(t),
                None => placeholder(),
            },
            None => placeholder(),
        },
        Platform::Linux => match output {
            Some(s) => or_placeholder_spec(trim_spec(s@)),
            None => placeholder(),
        },
        Platform::Windows => match output {
            Some(s) => or_placeholder_spec(trim_spec(s@)),
            None => placeholder(),
        },
        Platform::Other => placeholder(),
    }
}

/// Derives the graphics field from the display query's output.
pub fn gpu_field(platform: Platform, output: &Option<String>) -> (r: String)
    ensures
        r@ == gpu_spec(platform, *output),
{
    match platform {
        Platform::MacOs => match output {
            Some(s) => match extract_gpu(s.as_str()) {
                Some(t) => or_placeholder(t),
                None => crate::placeholder_value(),
            },
            None => crate::placeholder_value(),
        },
        Platform::Linux => match output {
            Some(s) => or_placeholder(trim_str(s.as_str())),
            None => crate::placeholder_value(),
        },
        Platform::Windows => match output {
            Some(s) => or_placeholder(trim_str(s.as_str())),
            None => crate::placeholder_value(),
        },
        Platform::Other => crate::placeholder_value(),
    }
}

} // verus!
