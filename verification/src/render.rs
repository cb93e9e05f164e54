use vstd::prelude::*;

use crate::ansi::{bold_spec, dim_spec, styled_bold, styled_dimmed, styled_truecolor,
    truecolor_spec};
use crate::host::emit_line;
use crate::info::Info;
use crate::logo::{logo_spec, rust_logo};
use crate::text::{join_spec, join_with};

verus! {

// --- the info rows ---

/// A labeled row: the label in bold, one space, the value.
pub open spec fn labeled_spec(label: Seq<char>, value: Seq<char>) -> Seq<char> {
    bold_spec(label) + " "@ + value
}

fn labeled(label: &str, value: &str) -> (r: String)
    ensures
        r@ == labeled_spec(label@, value@),
{
    let mut s = styled_bold(label);
    s.append(" ");
    s.append(value);
    proof {
        assert(s@ =~= labeled_spec(label@, value@));
    }
    s
}

/// The identity row: the user and host in bold joined by a dimmed at
/// sign, then the OS family dimmed in parentheses.
pub open spec fn identity_spec(user: Seq<char>, host: Seq<char>, os_name: Seq<char>) -> Seq<char> {
    bold_spec(user) + dim_spec("@"@) + bold_spec(host) + " "@ + dim_spec("("@) + dim_spec(os_name)
        + dim_spec(")"@)
}

fn identity_line(user: &str, host: &str, os_name: &str) -> (r: String)
    ensures
        r@ == identity_spec(user@, host@, os_name@),
{
    let mut s = styled_bold(user);
    let at = styled_dimmed("@");
    s.append(at.as_str());
    let h = styled_bold(host);
    s.append(h.as_str());
    s.append(" ");
    let open_paren = styled_dimmed("(");
    s.append(open_paren.as_str());
    let name = styled_dimmed(os_name);
    s.append(name.as_str());
    let close_paren = styled_dimmed(")");
    s.append(close_paren.as_str());
    proof {
        assert(s@ =~= identity_spec(user@, host@, os_name@));
    }
    s
}

/// The palette swatch rows' pieces: eight block glyphs, each in one of
/// the fixed swatch colors.
pub open spec fn block_parts() -> Seq<Seq<char>> {
    seq![
        truecolor_spec("■"@, 255u8, 59u8, 48u8),
        truecolor_spec("■"@, 255u8, 149u8, 0u8),
        truecolor_spec("■"@, 255u8, 204u8, 0u8),
        truecolor_spec("■"@, 52u8, 199u8, 89u8),
        truecolor_spec("■"@, 0u8, 122u8, 255u8),
        truecolor_spec("■"@, 88u8, 86u8, 214u8),
        truecolor_spec("■"@, 175u8, 82u8, 222u8),
        truecolor_spec("■"@, 142u8, 142u8, 147u8),
    ]
}

/// The color palette swatch: the eight blocks, space separated.
pub open spec fn blocks_spec() -> Seq<char> {
    join_spec(block_parts(), " "@)
}

/// Builds the color palette swatch row.
pub fn color_blocks() -> (r: String)
    ensures
        r@ == blocks_spec(),
{
    let mut parts: Vec<String> = Vec::new();
    parts.push(styled_truecolor("■", 255, 59, 48));
    parts.push(styled_truecolor("■", 255, 149, 0));
    parts.push(styled_truecolor("■", 255, 204, 0));
    parts.push(styled_truecolor("■", 52, 199, 89));
    parts.push(styled_truecolor("■", 0, 122, 255));
    parts.push(styled_truecolor("■", 88, 86, 214));
    parts.push(styled_truecolor("■", 175, 82, 222));
    parts.push(styled_truecolor("■", 142, 142, 147));
    proof {
        assert(parts@.map_values(|l: String| l@) =~= block_parts());
    }
    join_with(&parts, " ")
}

/// The info rows of a snapshot: the identity row, one labeled row per
/// attribute, and the palette swatch.
pub open spec fn info_lines_spec(i: Info) -> Seq<Seq<char>> {
    seq![
        identity_spec(i.user@, i.host@, i.os_name@),
        labeled_spec("OS"@, i.os_pretty@),
        labeled_spec("Kernel"@, i.kernel@),
        labeled_spec("Uptime"@, i.uptime@),
        labeled_spec("Shell"@, i.shell@),
        labeled_spec("Terminal"@, i.terminal@),
        labeled_spec("Packages"@, i.packages@),
        labeled_spec("Resolution"@, i.resolution@),
        labeled_spec("DE/WM"@, i.de_wm@),
        labeled_spec("CPU"@, i.cpu@),
        labeled_spec("GPU"@, i.gpu@),
        labeled_spec("Memory"@, i.memory@),
        blocks_spec(),
    ]
}

/// Builds the info rows of a snapshot.
pub fn info_lines(info: &Info) -> (r: Vec<String>)
    ensures
        r@.map_values(|l: String| l@) == info_lines_spec(*info),
{
    let mut v: Vec<String> = Vec::new();
    v.push(identity_line(info.user.as_str(), info.host.as_str(), info.os_name.as_str()));
    v.push(labeled("OS", info.os_pretty.as_str()));
    v.push(labeled("Kernel", info.kernel.as_str()));
    v.push(labeled("Uptime", info.uptime.as_str()));
    v.push(labeled("Shell", info.shell.as_str()));
    v.push(labeled("Terminal", info.terminal.as_str()));
    v.push(labeled("Packages", info.packages.as_str()));
    v.push(labeled("Resolution", info.resolution.as_str()));
    v.push(labeled("DE/WM", info.de_wm.as_str()));
    v.push(labeled("CPU", info.cpu.as_str()));
    v.push(labeled("GPU", info.gpu.as_str()));
    v.push(labeled("Memory", info.memory.as_str()));
    v.push(color_blocks());
    proof {
        assert(v@.map_values(|l: String| l@) =~= info_lines_spec(*info));
    }
    v
}

// --- side-by-side alignment ---

/// The fixed pad put before an info row that has no logo row beside
/// it: the logo's nominal display width of 22 columns plus the
/// two-column gap. A constant tuned to the built-in logo, not measured
/// from it.
pub open spec fn pad_spec() -> Seq<char> {
    Seq::new(24, |i: int| ' ')
}

/// One printed row: the logo row alone when the info side is
/// exhausted; the pad and the info row when the logo side is; both,
/// two spaces apart, otherwise.
pub open spec fn align_row_spec(logo: Seq<Seq<char>>, fields: Seq<Seq<char>>, i: int) -> Seq<
    char,
> {
    let lp = if i < logo.len() {
        logo[i]
    } else {
        Seq::empty()
    };
    let fp = if i < fields.len() {
        fields[i]
    } else {
        Seq::empty()
    };
    if fp.len() == 0 {
        lp
    } else if lp.len() == 0 {
        pad_spec() + fp
    } else {
        lp + "  "@ + fp
    }
}

/// Zips the logo rows and the info rows positionally into the printed
/// rows: exactly as many as the longer side has.
pub fn align_lines(logo: &Vec<String>, fields: &Vec<String>) -> (r: Vec<String>)
    ensures
        r@.len() == if logo@.len() >= fields@.len() {
            logo@.len()
        } else {
            fields@.len()
        },
        forall|i: int|
            0 <= i < r@.len() ==> r@[i]@ == align_row_spec(
                logo@.map_values(|l: String| l@),
                fields@.map_values(|l: String| l@),
                i,
            ),
{
    let ghost ls = logo@.map_values(|l: String| l@);
    let ghost fs = fields@.map_values(|l: String| l@);
    let total = if logo.len() >= fields.len() {
        logo.len()
    } else {
        fields.len()
    };
    let mut out: Vec<String> = Vec::new();
    let mut i: usize = 0;
    while i < total
        invariant
            0 <= i <= total,
            ls == logo@.map_values(|l: String| l@),
            fs == fields@.map_values(|l: String| l@),
            total == if ls.len() >= fs.len() {
                ls.len()
            } else {
                fs.len()
            },
            out@.len() == i,
            forall|k: int| 0 <= k < i ==> out@[k]@ == align_row_spec(ls, fs, k),
        decreases total - i,
    {
        let logo_part: &str = if i < logo.len() {
            logo[i].as_str()
        } else {
            ""
        };
        let info_part: &str = if i < fields.len() {
            fields[i].as_str()
        } else {
            ""
        };
        proof {
            reveal_strlit("");
        }
        let row: String = if info_part.unicode_len() == 0 {
            String::from_str(logo_part)
        } else if logo_part.unicode_len() == 0 {
            let mut s = String::from_str("                        ");
            proof {
                reveal_strlit("                        ");
                assert(s@ =~= pad_spec());
            }
            s.append(info_part);
            s
        } else {
            let mut s = String::from_str(logo_part);
            s.append("  ");
            s.append(info_part);
            s
        };
        proof {
            assert(row@ == align_row_spec(ls, fs, i as int));
        }
        out.push(row);
        i = i + 1;
    }
    out
}

/// Renders the whole report: the pre-colored logo and the info rows,
/// aligned side by side.
pub fn render_report(info: &Info) -> (r: Vec<String>)
    ensures
        r@.len() == logo_spec().len(),
        forall|i: int|
            0 <= i < r@.len() ==> r@[i]@ == align_row_spec(
                logo_spec(),
                info_lines_spec(*info),
                i,
            ),
{
    let logo = rust_logo();
    let fields = info_lines(info);
    proof {
        assert(logo_spec().len() == 14);
        assert(info_lines_spec(*info).len() == 13);
    }
    align_lines(&logo, &fields)
}

/// Prints the report beside the logo, one row per line.
pub fn print_with_logo(info: &Info) {
    let rows = render_report(info);
    let mut i: usize = 0;
    while i < rows.len()
        decreases rows@.len() - i,
    {
        emit_line(rows[i].as_str());
        i = i + 1;
    }
}

} // verus!
