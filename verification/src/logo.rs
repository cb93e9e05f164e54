use vstd::prelude::*;

use crate::ansi::{styled_truecolor, truecolor_spec};

verus! {

/// The logo's uncolored rows.
pub open spec fn logo_base() -> Seq<Seq<char>> {
    seq![
        "                         "@,
        "        @@@@@@@@@@       "@,
        "    @ @@@@ @@@  @@@@@@   "@,
        "   @@@@            @@@@  "@,
        "  @@@@@@@@@@@@@@@@  @@@@ "@,
        "  @  @ @@@@    @@@@ @ @@ "@,
        "  @@   @@@@@@@@@@@@  @@@ "@,
        " @@@   @@@@@@@@@@@    @@@"@,
        " @@@   @@@@    @@@@  @@@@"@,
        "  @@@@@@@@@@@  @@@@@@@@@ "@,
        "   @@@              @@@  "@,
        "    @@@ @        @ @@@   "@,
        "      @@@@@@@@@@@@@@      "@,
        "        @ @ @@@@ @        "@,
    ]
}

/// The color a row is drawn in: a four-step gradient repeating by row
/// index.
pub open spec fn logo_color(i: int) -> (u8, u8, u8) {
    if i % 4 == 0 {
        (222u8, 165u8, 132u8)
    } else if i % 4 == 1 {
        (201u8, 132u8, 88u8)
    } else if i % 4 == 2 {
        (160u8, 93u8, 63u8)
    } else {
        (120u8, 69u8, 45u8)
    }
}

/// The logo as printed: each row wrapped in its color's escapes.
pub open spec fn logo_spec() -> Seq<Seq<char>> {
    Seq::new(
        logo_base().len(),
        |i: int|
            truecolor_spec(logo_base()[i], logo_color(i).0, logo_color(i).1, logo_color(i).2),
    )
}

/// The decorative logo, one pre-colored row per line.
pub fn rust_logo() -> (r: Vec<String>)
    ensures
        r@.map_values(|l: String| l@) == logo_spec(),
{
    let mut v: Vec<String> = Vec::new();
    v.push(styled_truecolor("                         ", 222, 165, 132));
    v.push(styled_truecolor("        @@@@@@@@@@       ", 201, 132, 88));
    v.push(styled_truecolor("    @ @@@@ @@@  @@@@@@   ", 160, 93, 63));
    v.push(styled_truecolor("   @@@@            @@@@  ", 120, 69, 45));
    v.push(styled_truecolor("  @@@@@@@@@@@@@@@@  @@@@ ", 222, 165, 132));
    v.push(styled_truecolor("  @  @ @@@@    @@@@ @ @@ ", 201, 132, 88));
    v.push(styled_truecolor("  @@   @@@@@@@@@@@@  @@@ ", 160, 93, 63));
    v.push(styled_truecolor(" @@@   @@@@@@@@@@@    @@@", 120, 69, 45));
    v.push(styled_truecolor(" @@@   @@@@    @@@@  @@@@", 222, 165, 132));
    v.push(styled_truecolor("  @@@@@@@@@@@  @@@@@@@@@ ", 201, 132, 88));
    v.push(styled_truecolor("   @@@              @@@  ", 160, 93, 63));
    v.push(styled_truecolor("    @@@ @        @ @@@   ", 120, 69, 45));
    v.push(styled_truecolor("      @@@@@@@@@@@@@@      ", 222, 165, 132));
    v.push(styled_truecolor("        @ @ @@@@ @        ", 201, 132, 88));
    proof {
        assert(v@.map_values(|l: String| l@) =~= logo_spec());
    }
    v
}

} // verus!
