use vstd::prelude::*;

pub mod ansi;
pub mod extract;
pub mod host;
pub mod info;
pub mod memory;
pub mod logo;
pub mod pkg;
pub mod probe;
pub mod render;
pub mod text;
pub mod uptime;

verus! {

/// The fixed substitute value reported when a probe cannot determine its fact.
pub open spec fn placeholder() -> Seq<char> {
    "-"@
}

/// The placeholder string handed out by probes that found nothing.
pub fn placeholder_value() -> (r: String)
    ensures
        r@ == placeholder(),
{
    String::from_str("-")
}

} // verus!
